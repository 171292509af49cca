use inquire_terminal::key::{Key, KeyModifiers};
use inquire_terminal::native::{
    key_from_event, modifiers_from_native, NativeEvent, NativeKeyCode, NativeKeyEvent,
    NativeKeyEventKind, NativeKeyModifiers,
};
use inquire_terminal::no_tty::{key_outcome, CrosstermKeyReader};
use inquire_terminal::terminal::TerminalError;

fn press(code: NativeKeyCode, bits: u8) -> NativeKeyEvent {
    NativeKeyEvent {
        code,
        modifiers: NativeKeyModifiers { bits },
        kind: NativeKeyEventKind::Press,
    }
}

fn next(reader: &mut CrosstermKeyReader) -> Result<Option<Key>, TerminalError> {
    let ev = reader.source_mut().blocking_recv();
    reader.handle_event(ev)
}

#[test]
fn control_left_is_left_with_control() {
    let k = key_from_event(press(NativeKeyCode::Left, 2));
    assert_eq!(k, Key::Left(KeyModifiers::control()));
    let released = NativeKeyEvent { kind: NativeKeyEventKind::Release, ..press(NativeKeyCode::Left, 2) };
    assert_eq!(key_from_event(released), k);
    let via_into: Key = press(NativeKeyCode::Left, 2).into();
    assert_eq!(via_into, k);
}

#[test]
fn enter_and_tab_from_codes_and_characters() {
    assert_eq!(key_from_event(press(NativeKeyCode::Enter, 0)), Key::Enter);
    assert_eq!(key_from_event(press(NativeKeyCode::Char('\n'), 0)), Key::Enter);
    assert_eq!(key_from_event(press(NativeKeyCode::Char('\r'), 4)), Key::Enter);
    assert_eq!(key_from_event(press(NativeKeyCode::Tab, 0)), Key::Tab);
    assert_eq!(key_from_event(press(NativeKeyCode::Char('\t'), 1)), Key::Tab);
}

#[test]
fn keys_without_and_with_modifiers() {
    assert_eq!(key_from_event(press(NativeKeyCode::Esc, 2)), Key::Escape);
    assert_eq!(key_from_event(press(NativeKeyCode::Backspace, 2)), Key::Backspace);
    assert_eq!(key_from_event(press(NativeKeyCode::Home, 0)), Key::Home);
    assert_eq!(key_from_event(press(NativeKeyCode::End, 0)), Key::End);
    assert_eq!(
        key_from_event(press(NativeKeyCode::Delete, 4)),
        Key::Delete(KeyModifiers::alt())
    );
    assert_eq!(
        key_from_event(press(NativeKeyCode::PageUp, 1)),
        Key::PageUp(KeyModifiers::shift())
    );
    assert_eq!(
        key_from_event(press(NativeKeyCode::PageDown, 0)),
        Key::PageDown(KeyModifiers::empty())
    );
    assert_eq!(key_from_event(press(NativeKeyCode::Up, 8)), Key::Up(KeyModifiers::super_key()));
    assert_eq!(key_from_event(press(NativeKeyCode::Down, 16)), Key::Down(KeyModifiers::hyper()));
    assert_eq!(key_from_event(press(NativeKeyCode::Right, 32)), Key::Right(KeyModifiers::meta()));
    assert_eq!(
        key_from_event(press(NativeKeyCode::Char('a'), 3)),
        Key::Char('a', KeyModifiers { bits: 3 })
    );
}

#[test]
fn unrecognized_codes_are_any() {
    assert_eq!(key_from_event(press(NativeKeyCode::F(1), 0)), Key::Any);
    assert_eq!(key_from_event(press(NativeKeyCode::Insert, 0)), Key::Any);
    assert_eq!(key_from_event(press(NativeKeyCode::BackTab, 1)), Key::Any);
}

#[test]
fn modifier_translation_keeps_known_bits_only() {
    assert_eq!(modifiers_from_native(NativeKeyModifiers { bits: 0 }), KeyModifiers::empty());
    assert_eq!(modifiers_from_native(NativeKeyModifiers { bits: 0xFF }).bits, 63);
    assert_eq!(modifiers_from_native(NativeKeyModifiers { bits: 0b1100_0110 }).bits, 6);
    let m: KeyModifiers = NativeKeyModifiers { bits: 2 }.into();
    assert!(m.contains(KeyModifiers::control()));
    assert!(!m.contains(KeyModifiers::shift()));
}

#[test]
fn modifier_set_operations() {
    let m = KeyModifiers::control().union(KeyModifiers::alt());
    assert_eq!(m.bits, 6);
    assert!(m.contains(KeyModifiers::alt()));
    assert!(!m.is_empty());
    assert!(KeyModifiers::empty().is_empty());
    assert_eq!(KeyModifiers::from_bits_truncate(0x41).bits, 1);
}

#[test]
fn outcome_of_each_kind_of_event() {
    assert_eq!(key_outcome(None), Err(TerminalError::EndOfInput));
    assert_eq!(key_outcome(Some(NativeEvent::Mouse)), Ok(None));
    assert_eq!(key_outcome(Some(NativeEvent::Resize(10, 10))), Ok(None));
    assert_eq!(key_outcome(Some(NativeEvent::Paste("x".to_string()))), Ok(None));
    let release = NativeKeyEvent { kind: NativeKeyEventKind::Release, ..press(NativeKeyCode::Char('x'), 0) };
    assert_eq!(key_outcome(Some(NativeEvent::Key(release))), Ok(None));
    assert_eq!(
        key_outcome(Some(NativeEvent::Key(press(NativeKeyCode::Char('x'), 0)))),
        Ok(Some(Key::Char('x', KeyModifiers::empty())))
    );
}

#[test]
fn reader_delivers_typed_keys_in_order() {
    let (tx, rx) = tokio::sync::mpsc::channel::<NativeEvent>(8);
    let mut reader = CrosstermKeyReader::new(rx);
    for code in [NativeKeyCode::Char('h'), NativeKeyCode::Char('i'), NativeKeyCode::Enter] {
        tx.blocking_send(NativeEvent::Key(press(code, 0))).unwrap();
    }
    drop(tx);
    let mut keys = Vec::new();
    loop {
        match next(&mut reader) {
            Ok(Some(k)) => keys.push(k),
            Ok(None) => {}
            Err(e) => {
                assert_eq!(e, TerminalError::EndOfInput);
                break;
            }
        }
    }
    assert_eq!(
        keys,
        vec![
            Key::Char('h', KeyModifiers::empty()),
            Key::Char('i', KeyModifiers::empty()),
            Key::Enter
        ]
    );
}

#[test]
fn reader_skips_events_that_are_not_presses() {
    let (tx, rx) = tokio::sync::mpsc::channel::<NativeEvent>(8);
    let mut reader = CrosstermKeyReader::new(rx);
    tx.blocking_send(NativeEvent::FocusGained).unwrap();
    tx.blocking_send(NativeEvent::Key(NativeKeyEvent {
        kind: NativeKeyEventKind::Release,
        ..press(NativeKeyCode::Char('q'), 0)
    }))
    .unwrap();
    tx.blocking_send(NativeEvent::Key(press(NativeKeyCode::Esc, 0))).unwrap();
    assert_eq!(next(&mut reader), Ok(None));
    assert_eq!(next(&mut reader), Ok(None));
    assert_eq!(next(&mut reader), Ok(Some(Key::Escape)));
}
