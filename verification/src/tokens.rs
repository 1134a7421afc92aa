//! What a pane is told of a key or of the mouse: every key under the name that rmux has for it, with the
//! modifiers that are held, and every mouse event at its own place in the pane.

use vstd::prelude::*;
use vstd::string::*;

use crate::input::{
    sequence_of, token_of, KeyCode, KeyEvent, KeyModifiers, MouseButton, MouseEvent, MouseEventKind,
};
use crate::text::{all_digits, decimal_of, decimals_read_back, value_of};

verus! {

/// The keys that rmux knows by a name.
pub open spec fn named_keys() -> Seq<(Seq<char>, KeyCode)> {
    seq![
        ("Left"@, KeyCode::Left),
        ("Right"@, KeyCode::Right),
        ("Up"@, KeyCode::Up),
        ("Down"@, KeyCode::Down),
        ("Home"@, KeyCode::Home),
        ("End"@, KeyCode::End),
        ("PageUp"@, KeyCode::PageUp),
        ("PageDown"@, KeyCode::PageDown),
        ("Enter"@, KeyCode::Enter),
        ("Escape"@, KeyCode::Esc),
        ("Tab"@, KeyCode::Tab),
        ("BTab"@, KeyCode::BackTab),
        ("BSpace"@, KeyCode::Backspace),
        ("DC"@, KeyCode::Delete),
        ("IC"@, KeyCode::Insert),
    ]
}

/// Whether a key is known by a name, or is a function key.
pub open spec fn has_a_name(code: KeyCode) -> bool {
    match code {
        KeyCode::Char(_) => false,
        KeyCode::Null => false,
        KeyCode::Other => false,
        _ => true,
    }
}

/// A key without modifiers is sent under the name that rmux has for that key.
pub proof fn a_key_is_sent_under_its_own_name(at: int, modifiers: KeyModifiers)
    requires
        0 <= at < named_keys().len(),
        !modifiers.control && !modifiers.alt && !modifiers.shift,
    ensures
        token_of(KeyEvent { code: named_keys()[at].1, modifiers }) == Some(named_keys()[at].0),
{
    let name = named_keys()[at].0;
    assert(seq![] + seq![] + seq![] + name =~= name);
}

/// A function key is sent as an `F` and its number.
pub proof fn a_function_key_is_sent_with_its_number(number: u8, modifiers: KeyModifiers)
    requires
        !modifiers.control && !modifiers.alt && !modifiers.shift,
    ensures
        ({
            let token = token_of(KeyEvent { code: KeyCode::F(number), modifiers });
            &&& token is Some
            &&& token->0.len() > 1
            &&& token->0[0] == 'F'
            &&& all_digits(token->0.skip(1))
            &&& value_of(token->0.skip(1)) == number
        }),
{
    reveal_strlit("F");
    decimals_read_back(number as nat);
    let token = token_of(KeyEvent { code: KeyCode::F(number), modifiers })->0;
    assert(token =~= "F"@ + decimal_of(number as nat));
    assert(token.skip(1) =~= decimal_of(number as nat));
}

/// A modifier that is held is told once, before the key: control before the others, then alt, then
/// shift. Any other modifier changes nothing for a key with a name.
pub proof fn held_modifiers_are_told(code: KeyCode, modifiers: KeyModifiers)
    requires
        has_a_name(code),
    ensures
        token_of(KeyEvent { code, modifiers }) is Some,
        modifiers.control ==> token_of(KeyEvent { code, modifiers })->0 == seq!['C', '-'] + token_of(
            KeyEvent { code, modifiers: KeyModifiers { control: false, ..modifiers } },
        )->0,
        !modifiers.control && modifiers.alt ==> token_of(KeyEvent { code, modifiers })->0 == seq![
            'M',
            '-',
        ] + token_of(KeyEvent { code, modifiers: KeyModifiers { alt: false, ..modifiers } })->0,
        !modifiers.control && !modifiers.alt && modifiers.shift ==> token_of(
            KeyEvent { code, modifiers },
        )->0 == seq!['S', '-'] + token_of(
            KeyEvent { code, modifiers: KeyModifiers { shift: false, ..modifiers } },
        )->0,
        token_of(KeyEvent { code, modifiers }) == token_of(
            KeyEvent { code, modifiers: KeyModifiers { other: !modifiers.other, ..modifiers } },
        ),
{
    reveal_strlit("C-");
    reveal_strlit("M-");
    reveal_strlit("S-");
    assert("C-"@ =~= seq!['C', '-']);
    assert("M-"@ =~= seq!['M', '-']);
    assert("S-"@ =~= seq!['S', '-']);
    let token = token_of(KeyEvent { code, modifiers })->0;
    if modifiers.control {
        assert(token =~= seq!['C', '-'] + token_of(
            KeyEvent { code, modifiers: KeyModifiers { control: false, ..modifiers } },
        )->0);
    } else if modifiers.alt {
        assert(token =~= seq!['M', '-'] + token_of(
            KeyEvent { code, modifiers: KeyModifiers { alt: false, ..modifiers } },
        )->0);
    } else if modifiers.shift {
        assert(token =~= seq!['S', '-'] + token_of(
            KeyEvent { code, modifiers: KeyModifiers { shift: false, ..modifiers } },
        )->0);
    }
}

/// A character is sent as a token only where something else than shift is held with it, and then as
/// itself, behind the same modifiers as any other key; plain characters are sent as text.
pub proof fn a_character_is_sent_as_itself(c: char, modifiers: KeyModifiers)
    ensures
        ({
            let token = token_of(KeyEvent { code: KeyCode::Char(c), modifiers });
            let left = token_of(KeyEvent { code: KeyCode::Left, modifiers });
            &&& token is Some <==> modifiers.control || modifiers.alt || modifiers.other
            &&& token is Some ==> token->0.len() > 0 && token->0.last() == c
                && token->0.drop_last() + "Left"@ == left->0
        }),
{
    let token = token_of(KeyEvent { code: KeyCode::Char(c), modifiers });
    if token is Some {
        let prefix = crate::input::modifier_prefix(modifiers);
        assert(token->0 =~= prefix + seq![c]);
        assert(token->0.drop_last() =~= prefix);
    }
}

/// A key that has no use is not sent.
pub proof fn other_keys_are_not_sent(modifiers: KeyModifiers)
    ensures
        token_of(KeyEvent { code: KeyCode::Null, modifiers }) is None,
        token_of(KeyEvent { code: KeyCode::Other, modifiers }) is None,
{
}

/// What terminals count a mouse event as: the button, or what stands for it, whether the mouse moved,
/// and whether it was the wheel.
pub open spec fn mouse_parts(kind: MouseEventKind) -> Option<(int, bool, bool)> {
    match kind {
        MouseEventKind::Down(button) => Some(
            (
                match button {
                    MouseButton::Left => 0,
                    MouseButton::Middle => 1,
                    MouseButton::Right => 2,
                },
                false,
                false,
            ),
        ),
        MouseEventKind::Up(_) => Some((0, false, false)),
        MouseEventKind::Drag(button) => if button == MouseButton::Left {
            Some((0, true, false))
        } else {
            None
        },
        MouseEventKind::Moved => Some((3, true, false)),
        MouseEventKind::ScrollUp => Some((0, false, true)),
        MouseEventKind::ScrollDown => Some((1, false, true)),
        MouseEventKind::ScrollLeft => Some((2, false, true)),
        MouseEventKind::ScrollRight => Some((3, false, true)),
    }
}

/// Whether a text is a mouse event as terminals write it: three numbers, and how it ends.
pub open spec fn is_mouse_text(
    text: Seq<char>,
    parts: (Seq<char>, Seq<char>, Seq<char>),
    end: char,
) -> bool {
    &&& text == seq!['\x1b', '[', '<'] + parts.0 + seq![';'] + parts.1 + seq![';'] + parts.2 + seq![
        end,
    ]
    &&& all_digits(parts.0) && all_digits(parts.1) && all_digits(parts.2)
}

/// A mouse event in the pane is told with its button, and at its own place, counted from one at the
/// pane's first cell: the pane reads back what happened and where. Releases are told by how the text
/// ends. Nothing is told of what happened before that cell, nor of drags with other buttons.
pub proof fn a_mouse_event_is_told_at_its_place(event: MouseEvent, x: u16, y: u16) -> (parts: (
    Seq<char>,
    Seq<char>,
    Seq<char>,
))
    ensures
        sequence_of(event, x, y) is Some <==> event.column >= x && event.row >= y && mouse_parts(
            event.kind,
        ) is Some,
        sequence_of(event, x, y) matches Some(text) ==> {
            let (button, moves, wheel) = mouse_parts(event.kind)->0;
            &&& is_mouse_text(
                text,
                parts,
                if event.kind is Up {
                    'm'
                } else {
                    'M'
                },
            )
            &&& value_of(parts.0) == button + (if moves {
                32int
            } else {
                0
            }) + (if wheel {
                64int
            } else {
                0
            })
            &&& value_of(parts.1) == event.column - x + 1
            &&& value_of(parts.2) == event.row - y + 1
        },
{
    let told = crate::input::mouse_button(event.kind);
    if event.column >= x && event.row >= y && told is Some {
        let (button, release) = told->0;
        let first = decimal_of(button as nat);
        let second = decimal_of((event.column - x + 1) as nat);
        let third = decimal_of((event.row - y + 1) as nat);
        decimals_read_back(button as nat);
        decimals_read_back((event.column - x + 1) as nat);
        decimals_read_back((event.row - y + 1) as nat);
        reveal_strlit("\x1b[<");
        reveal_strlit(";");
        reveal_strlit("m");
        reveal_strlit("M");
        assert("\x1b[<"@ =~= seq!['\x1b', '[', '<']);
        assert(";"@ =~= seq![';']);
        assert("m"@ =~= seq!['m']);
        assert("M"@ =~= seq!['M']);
        (first, second, third)
    } else {
        (seq![], seq![], seq![])
    }
}

/// What is told of a mouse event depends on its place in the pane alone, not on where the pane is.
pub proof fn mouse_events_move_with_the_pane(
    event: MouseEvent,
    moved: MouseEvent,
    x: u16,
    y: u16,
    to_x: u16,
    to_y: u16,
)
    requires
        event.kind == moved.kind,
        event.column - x == moved.column - to_x,
        event.row - y == moved.row - to_y,
    ensures
        sequence_of(event, x, y) == sequence_of(moved, to_x, to_y),
{
}

} // verus!
