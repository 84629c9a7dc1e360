use remoterm::keyboard::keyboard_action_to_bytes;
use remoterm::proto::KeyboardAction;

#[test]
fn keys_send_their_bytes() {
    let table: Vec<(KeyboardAction, &[u8])> = vec![
        (KeyboardAction::SendEsc, b"\x1b"),
        (KeyboardAction::SendTab, b"\t"),
        (KeyboardAction::ArrowUp, b"\x1b[A"),
        (KeyboardAction::ArrowDown, b"\x1b[B"),
        (KeyboardAction::ArrowRight, b"\x1b[C"),
        (KeyboardAction::ArrowLeft, b"\x1b[D"),
        (KeyboardAction::Home, b"\x1b[H"),
        (KeyboardAction::End, b"\x1b[F"),
        (KeyboardAction::PageUp, b"\x1b[5~"),
        (KeyboardAction::PageDown, b"\x1b[6~"),
        (KeyboardAction::Function(1), b"\x1bOP"),
        (KeyboardAction::Function(2), b"\x1bOQ"),
        (KeyboardAction::Function(3), b"\x1bOR"),
        (KeyboardAction::Function(4), b"\x1bOS"),
        (KeyboardAction::Function(5), b"\x1b[15~"),
        (KeyboardAction::Function(6), b"\x1b[17~"),
        (KeyboardAction::Function(7), b"\x1b[18~"),
        (KeyboardAction::Function(8), b"\x1b[19~"),
        (KeyboardAction::Function(9), b"\x1b[20~"),
        (KeyboardAction::Function(10), b"\x1b[21~"),
        (KeyboardAction::Function(11), b"\x1b[23~"),
        (KeyboardAction::Function(12), b"\x1b[24~"),
    ];
    for (key, bytes) in &table {
        assert_eq!(keyboard_action_to_bytes(*key).as_deref(), Some(*bytes));
    }
    for (i, (_, a)) in table.iter().enumerate() {
        for (j, (_, b)) in table.iter().enumerate() {
            assert_eq!(a == b, i == j);
        }
    }
}

#[test]
fn some_keys_send_nothing() {
    assert_eq!(keyboard_action_to_bytes(KeyboardAction::ToggleCtrlLock), None);
    assert_eq!(keyboard_action_to_bytes(KeyboardAction::ToggleAltLock), None);
    assert_eq!(keyboard_action_to_bytes(KeyboardAction::ToggleShiftLock), None);
    assert_eq!(keyboard_action_to_bytes(KeyboardAction::Function(0)), None);
    assert_eq!(keyboard_action_to_bytes(KeyboardAction::Function(13)), None);
    assert_eq!(keyboard_action_to_bytes(KeyboardAction::Function(255)), None);
}
