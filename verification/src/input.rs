//! Keys and mouse events as a pane takes them.

use vstd::prelude::*;
use vstd::string::*;

use crate::text::{concat2, decimal, decimal_of, optional};

verus! {

/// A key.
#[derive(Clone, Copy, Debug, PartialEq, Eq, Structural)]
pub enum KeyCode {
    Backspace,
    Enter,
    Left,
    Right,
    Up,
    Down,
    Home,
    End,
    PageUp,
    PageDown,
    Tab,
    BackTab,
    Delete,
    Insert,
    F(u8),
    Char(char),
    Esc,
    /// Control and space, as some terminals report it.
    Null,
    /// A key that has no use here.
    Other,
}

/// The modifiers that are held with a key.
#[derive(Clone, Copy, Debug, PartialEq, Eq, Structural)]
pub struct KeyModifiers {
    pub shift: bool,
    pub control: bool,
    pub alt: bool,
    /// Any other modifier.
    pub other: bool,
}

impl KeyModifiers {
    /// No modifier at all.
    pub open spec fn none(self) -> bool {
        !self.shift && !self.control && !self.alt && !self.other
    }

    /// Whether no modifier is held.
    pub fn is_empty(&self) -> (empty: bool)
        ensures
            empty == self.none(),
    {
        !self.shift && !self.control && !self.alt && !self.other
    }
}

/// A key with its modifiers.
#[derive(Clone, Copy, Debug, PartialEq, Eq, Structural)]
pub struct KeyEvent {
    pub code: KeyCode,
    pub modifiers: KeyModifiers,
}

#[derive(Clone, Copy, Debug, PartialEq, Eq, Structural)]
pub enum MouseButton {
    Left,
    Right,
    Middle,
}

#[derive(Clone, Copy, Debug, PartialEq, Eq, Structural)]
pub enum MouseEventKind {
    Down(MouseButton),
    Up(MouseButton),
    Drag(MouseButton),
    Moved,
    ScrollDown,
    ScrollUp,
    ScrollLeft,
    ScrollRight,
}

/// A mouse event at a place on the screen.
#[derive(Clone, Copy, Debug, PartialEq, Eq, Structural)]
pub struct MouseEvent {
    pub kind: MouseEventKind,
    pub column: u16,
    pub row: u16,
}

/// The name that rmux has for a key. Characters without a modifier other than shift are sent as
/// text and have none.
pub open spec fn key_name(event: KeyEvent) -> Option<Seq<char>> {
    match event.code {
        KeyCode::Backspace => Some("BSpace"@),
        KeyCode::Enter => Some("Enter"@),
        KeyCode::Left => Some("Left"@),
        KeyCode::Right => Some("Right"@),
        KeyCode::Up => Some("Up"@),
        KeyCode::Down => Some("Down"@),
        KeyCode::Home => Some("Home"@),
        KeyCode::End => Some("End"@),
        KeyCode::PageUp => Some("PageUp"@),
        KeyCode::PageDown => Some("PageDown"@),
        KeyCode::Tab => Some("Tab"@),
        KeyCode::BackTab => Some("BTab"@),
        KeyCode::Delete => Some("DC"@),
        KeyCode::Insert => Some("IC"@),
        KeyCode::Esc => Some("Escape"@),
        KeyCode::F(n) => Some("F"@ + decimal_of(n as nat)),
        KeyCode::Char(c) => if !event.modifiers.control && !event.modifiers.alt
            && !event.modifiers.other {
            None
        } else {
            Some(seq![c])
        },
        KeyCode::Null => None,
        KeyCode::Other => None,
    }
}

/// What stands before the name of a key: `C-`, `M-` and `S-` for the modifiers held.
pub open spec fn modifier_prefix(modifiers: KeyModifiers) -> Seq<char> {
    (if modifiers.control {
        "C-"@
    } else {
        seq![]
    }) + (if modifiers.alt {
        "M-"@
    } else {
        seq![]
    }) + (if modifiers.shift {
        "S-"@
    } else {
        seq![]
    })
}

/// The token that rmux takes for a key.
pub open spec fn token_of(event: KeyEvent) -> Option<Seq<char>> {
    match key_name(event) {
        Some(name) => Some(modifier_prefix(event.modifiers) + name),
        None => None,
    }
}

/// The token that rmux takes for a key.
pub fn key_token(event: KeyEvent) -> (token: Option<String>)
    ensures
        optional(token) == token_of(event),
{
    let name: String = match event.code {
        KeyCode::Backspace => "BSpace".to_owned(),
        KeyCode::Enter => "Enter".to_owned(),
        KeyCode::Left => "Left".to_owned(),
        KeyCode::Right => "Right".to_owned(),
        KeyCode::Up => "Up".to_owned(),
        KeyCode::Down => "Down".to_owned(),
        KeyCode::Home => "Home".to_owned(),
        KeyCode::End => "End".to_owned(),
        KeyCode::PageUp => "PageUp".to_owned(),
        KeyCode::PageDown => "PageDown".to_owned(),
        KeyCode::Tab => "Tab".to_owned(),
        KeyCode::BackTab => "BTab".to_owned(),
        KeyCode::Delete => "DC".to_owned(),
        KeyCode::Insert => "IC".to_owned(),
        KeyCode::Esc => "Escape".to_owned(),
        KeyCode::F(n) => concat2("F", &decimal(n as u64)),
        KeyCode::Char(c) => {
            if !event.modifiers.control && !event.modifiers.alt && !event.modifiers.other {
                return None;
            }
            let mut name = String::new();
            name.push(c);
            assert(name@ =~= seq![c]);
            name
        },
        KeyCode::Null => return None,
        KeyCode::Other => return None,
    };
    let mut token = String::new();
    if event.modifiers.control {
        token.append("C-");
    }
    if event.modifiers.alt {
        token.append("M-");
    }
    if event.modifiers.shift {
        token.append("S-");
    }
    assert(token@ =~= modifier_prefix(event.modifiers));
    token.append(&name);
    Some(token)
}

/// The button number of a mouse event and whether it is a release.
pub open spec fn mouse_button(kind: MouseEventKind) -> Option<(u64, bool)> {
    match kind {
        MouseEventKind::Down(MouseButton::Left) => Some((0, false)),
        MouseEventKind::Down(MouseButton::Middle) => Some((1, false)),
        MouseEventKind::Down(MouseButton::Right) => Some((2, false)),
        MouseEventKind::Up(_) => Some((0, true)),
        MouseEventKind::Drag(MouseButton::Left) => Some((32, false)),
        MouseEventKind::Moved => Some((35, false)),
        MouseEventKind::ScrollUp => Some((64, false)),
        MouseEventKind::ScrollDown => Some((65, false)),
        MouseEventKind::ScrollLeft => Some((66, false)),
        MouseEventKind::ScrollRight => Some((67, false)),
        MouseEventKind::Drag(_) => None,
    }
}

/// A mouse event in the notation of terminals: button, column and row counted from one at the
/// origin. Events before the origin, and drags with other buttons than the left, have none.
pub open spec fn sequence_of(event: MouseEvent, origin_x: u16, origin_y: u16) -> Option<Seq<char>> {
    if event.column < origin_x || event.row < origin_y {
        None
    } else {
        match mouse_button(event.kind) {
            Some((button, release)) => Some(
                "\x1b[<"@ + decimal_of(button as nat) + ";"@ + decimal_of(
                    (event.column - origin_x + 1) as nat,
                ) + ";"@ + decimal_of((event.row - origin_y + 1) as nat) + (if release {
                    "m"@
                } else {
                    "M"@
                }),
            ),
            None => None,
        }
    }
}

/// A mouse event in the notation of terminals.
pub fn mouse_sequence(event: MouseEvent, origin_x: u16, origin_y: u16) -> (sequence: Option<String>)
    requires
        event.column - origin_x < u16::MAX,
        event.row - origin_y < u16::MAX,
    ensures
        optional(sequence) == sequence_of(event, origin_x, origin_y),
{
    if event.column < origin_x || event.row < origin_y {
        return None;
    }
    let column: u16 = event.column - origin_x + 1;
    let row: u16 = event.row - origin_y + 1;
    let (button, release): (u64, bool) = match event.kind {
        MouseEventKind::Down(MouseButton::Left) => (0, false),
        MouseEventKind::Down(MouseButton::Middle) => (1, false),
        MouseEventKind::Down(MouseButton::Right) => (2, false),
        MouseEventKind::Up(_) => (0, true),
        MouseEventKind::Drag(MouseButton::Left) => (32, false),
        MouseEventKind::Moved => (35, false),
        MouseEventKind::ScrollUp => (64, false),
        MouseEventKind::ScrollDown => (65, false),
        MouseEventKind::ScrollLeft => (66, false),
        MouseEventKind::ScrollRight => (67, false),
        MouseEventKind::Drag(_) => return None,
    };
    let mut sequence = "\x1b[<".to_owned();
    sequence.append(&decimal(button));
    sequence.append(";");
    sequence.append(&decimal(column as u64));
    sequence.append(";");
    sequence.append(&decimal(row as u64));
    if release {
        sequence.append("m");
    } else {
        sequence.append("M");
    }
    Some(sequence)
}

} // verus!
