//! The bytes that the keys of the on-screen keyboard send to a terminal.

use vstd::prelude::*;

use crate::proto::KeyboardAction;

verus! {

/// The bytes that function key `n` sends, for the keys 1 to 12.
pub open spec fn function_key_bytes(n: u8) -> Option<Seq<u8>> {
    if n == 1 {
        Some(seq![0x1b, 'O' as u8, 'P' as u8])
    } else if n == 2 {
        Some(seq![0x1b, 'O' as u8, 'Q' as u8])
    } else if n == 3 {
        Some(seq![0x1b, 'O' as u8, 'R' as u8])
    } else if n == 4 {
        Some(seq![0x1b, 'O' as u8, 'S' as u8])
    } else if n == 5 {
        Some(seq![0x1b, '[' as u8, '1' as u8, '5' as u8, '~' as u8])
    } else if n == 6 {
        Some(seq![0x1b, '[' as u8, '1' as u8, '7' as u8, '~' as u8])
    } else if n == 7 {
        Some(seq![0x1b, '[' as u8, '1' as u8, '8' as u8, '~' as u8])
    } else if n == 8 {
        Some(seq![0x1b, '[' as u8, '1' as u8, '9' as u8, '~' as u8])
    } else if n == 9 {
        Some(seq![0x1b, '[' as u8, '2' as u8, '0' as u8, '~' as u8])
    } else if n == 10 {
        Some(seq![0x1b, '[' as u8, '2' as u8, '1' as u8, '~' as u8])
    } else if n == 11 {
        Some(seq![0x1b, '[' as u8, '2' as u8, '3' as u8, '~' as u8])
    } else if n == 12 {
        Some(seq![0x1b, '[' as u8, '2' as u8, '4' as u8, '~' as u8])
    } else {
        None
    }
}

/// The bytes that a key sends, if it sends any. The modifier locks act in the
/// client alone.
pub open spec fn key_bytes(action: KeyboardAction) -> Option<Seq<u8>> {
    match action {
        KeyboardAction::ToggleCtrlLock => None,
        KeyboardAction::ToggleAltLock => None,
        KeyboardAction::ToggleShiftLock => None,
        KeyboardAction::SendEsc => Some(seq![0x1b]),
        KeyboardAction::SendTab => Some(seq![0x09]),
        KeyboardAction::ArrowUp => Some(seq![0x1b, '[' as u8, 'A' as u8]),
        KeyboardAction::ArrowDown => Some(seq![0x1b, '[' as u8, 'B' as u8]),
        KeyboardAction::ArrowRight => Some(seq![0x1b, '[' as u8, 'C' as u8]),
        KeyboardAction::ArrowLeft => Some(seq![0x1b, '[' as u8, 'D' as u8]),
        KeyboardAction::Home => Some(seq![0x1b, '[' as u8, 'H' as u8]),
        KeyboardAction::End => Some(seq![0x1b, '[' as u8, 'F' as u8]),
        KeyboardAction::PageUp => Some(seq![0x1b, '[' as u8, '5' as u8, '~' as u8]),
        KeyboardAction::PageDown => Some(seq![0x1b, '[' as u8, '6' as u8, '~' as u8]),
        KeyboardAction::Function(n) => function_key_bytes(n),
    }
}

/// The bytes that a key sends, if it sends any.
pub fn keyboard_action_to_bytes(action: KeyboardAction) -> (r: Option<Vec<u8>>)
    ensures
        match r {
            Some(bytes) => key_bytes(action) == Some(bytes@),
            None => key_bytes(action) is None,
        },
{
    let bytes: Vec<u8> = match action {
        KeyboardAction::ToggleCtrlLock
        | KeyboardAction::ToggleAltLock
        | KeyboardAction::ToggleShiftLock => return None,
        KeyboardAction::SendEsc => vec![0x1b],
        KeyboardAction::SendTab => vec![0x09],
        KeyboardAction::ArrowUp => vec![0x1b, 0x5b, 0x41],
        KeyboardAction::ArrowDown => vec![0x1b, 0x5b, 0x42],
        KeyboardAction::ArrowRight => vec![0x1b, 0x5b, 0x43],
        KeyboardAction::ArrowLeft => vec![0x1b, 0x5b, 0x44],
        KeyboardAction::Home => vec![0x1b, 0x5b, 0x48],
        KeyboardAction::End => vec![0x1b, 0x5b, 0x46],
        KeyboardAction::PageUp => vec![0x1b, 0x5b, 0x35, 0x7e],
        KeyboardAction::PageDown => vec![0x1b, 0x5b, 0x36, 0x7e],
        KeyboardAction::Function(n) => match n {
            1 => vec![0x1b, 0x4f, 0x50],
            2 => vec![0x1b, 0x4f, 0x51],
            3 => vec![0x1b, 0x4f, 0x52],
            4 => vec![0x1b, 0x4f, 0x53],
            5 => vec![0x1b, 0x5b, 0x31, 0x35, 0x7e],
            6 => vec![0x1b, 0x5b, 0x31, 0x37, 0x7e],
            7 => vec![0x1b, 0x5b, 0x31, 0x38, 0x7e],
            8 => vec![0x1b, 0x5b, 0x31, 0x39, 0x7e],
            9 => vec![0x1b, 0x5b, 0x32, 0x30, 0x7e],
            10 => vec![0x1b, 0x5b, 0x32, 0x31, 0x7e],
            11 => vec![0x1b, 0x5b, 0x32, 0x33, 0x7e],
            12 => vec![0x1b, 0x5b, 0x32, 0x34, 0x7e],
            _ => return None,
        },
    };
    assert(bytes@ =~= key_bytes(action).unwrap());
    Some(bytes)
}

/// The key that sends the bytes, told by their number and by those that differ.
spec fn key_sending(bytes: Seq<u8>) -> KeyboardAction {
    let n = bytes.len();
    if n == 1 {
        if bytes[0] == 0x1b {
            KeyboardAction::SendEsc
        } else {
            KeyboardAction::SendTab
        }
    } else if n == 3 && bytes[1] == 'O' as u8 {
        KeyboardAction::Function((bytes[2] - 'P' as u8 + 1) as u8)
    } else if n == 3 {
        if bytes[2] == 'A' as u8 {
            KeyboardAction::ArrowUp
        } else if bytes[2] == 'B' as u8 {
            KeyboardAction::ArrowDown
        } else if bytes[2] == 'C' as u8 {
            KeyboardAction::ArrowRight
        } else if bytes[2] == 'D' as u8 {
            KeyboardAction::ArrowLeft
        } else if bytes[2] == 'H' as u8 {
            KeyboardAction::Home
        } else {
            KeyboardAction::End
        }
    } else if n == 4 {
        if bytes[2] == '5' as u8 {
            KeyboardAction::PageUp
        } else {
            KeyboardAction::PageDown
        }
    } else {
        let digit = bytes[3] - '0' as u8;
        if bytes[2] == '1' as u8 {
            KeyboardAction::Function(if digit == 5 {
                5
            } else {
                (digit - 1) as u8
            })
        } else {
            KeyboardAction::Function(if digit <= 1 {
                (digit + 9) as u8
            } else {
                (digit + 8) as u8
            })
        }
    }
}

proof fn lemma_key_sending(action: KeyboardAction)
    requires
        key_bytes(action) is Some,
    ensures
        key_sending(key_bytes(action).unwrap()) == action,
{
    match action {
        KeyboardAction::Function(n) => {
            assert(key_bytes(action) == function_key_bytes(n));
        },
        _ => {},
    }
}

/// Law: no two keys send the same bytes.
pub proof fn lemma_keys_distinct(a: KeyboardAction, b: KeyboardAction)
    requires
        key_bytes(a) is Some,
        key_bytes(a) == key_bytes(b),
    ensures
        a == b,
{
    lemma_key_sending(a);
    lemma_key_sending(b);
}

/// Law: the keys that send nothing are the modifier locks and the function keys
/// that are not F1 to F12.
pub proof fn lemma_silent_keys(action: KeyboardAction)
    ensures
        key_bytes(action) is None <==> match action {
            KeyboardAction::ToggleCtrlLock => true,
            KeyboardAction::ToggleAltLock => true,
            KeyboardAction::ToggleShiftLock => true,
            KeyboardAction::Function(n) => !(1 <= n <= 12),
            _ => false,
        },
{
}

} // verus!
