use inquire_terminal::no_tty::CrosstermTerminal;
use inquire_terminal::style::{Attributes, Color, StyleSheet, Styled};
use inquire_terminal::terminal::{
    get_default_terminal, EventSource, Terminal, TerminalError, TerminalSize,
};
use tokio::sync::mpsc::error::TryRecvError;
use tokio::sync::mpsc::Receiver;

fn terminal() -> (CrosstermTerminal, Receiver<Vec<u8>>) {
    let (tx, rx) = tokio::sync::mpsc::channel::<Vec<u8>>(16);
    let (_size_tx, size_rx) = tokio::sync::watch::channel(TerminalSize::new(80, 24));
    (CrosstermTerminal::new(tx, size_rx).unwrap(), rx)
}

/// Sends the outbox the way a host does.
fn deliver(t: &mut CrosstermTerminal) -> Result<(), TerminalError> {
    for batch in t.take_batches() {
        t.sender().try_send(batch).map_err(|_| TerminalError::Disconnected)?;
    }
    Ok(())
}

fn flushed(t: &mut CrosstermTerminal, rx: &mut Receiver<Vec<u8>>) -> Vec<u8> {
    t.flush().unwrap();
    deliver(t).unwrap();
    rx.try_recv().unwrap()
}

#[test]
fn zero_moves_send_nothing() {
    let (mut t, mut rx) = terminal();
    t.cursor_up(0).unwrap();
    t.cursor_down(0).unwrap();
    t.cursor_left(0).unwrap();
    t.cursor_right(0).unwrap();
    t.flush().unwrap();
    deliver(&mut t).unwrap();
    assert_eq!(rx.try_recv(), Err(TryRecvError::Empty));
}

#[test]
fn moves_are_encoded_with_their_count() {
    let (mut t, mut rx) = terminal();
    t.cursor_up(3).unwrap();
    assert_eq!(flushed(&mut t, &mut rx), b"\x1b[3A".to_vec());
    t.cursor_down(2).unwrap();
    assert_eq!(flushed(&mut t, &mut rx), b"\x1b[2B".to_vec());
    t.cursor_left(10).unwrap();
    assert_eq!(flushed(&mut t, &mut rx), b"\x1b[10D".to_vec());
    t.cursor_right(1).unwrap();
    assert_eq!(flushed(&mut t, &mut rx), b"\x1b[1C".to_vec());
    t.cursor_up(65535).unwrap();
    assert_eq!(flushed(&mut t, &mut rx), b"\x1b[65535A".to_vec());
}

#[test]
fn column_moves_are_one_based_on_the_wire() {
    let (mut t, mut rx) = terminal();
    t.cursor_move_to_column(0).unwrap();
    assert_eq!(flushed(&mut t, &mut rx), b"\x1b[1G".to_vec());
    t.cursor_move_to_column(41).unwrap();
    assert_eq!(flushed(&mut t, &mut rx), b"\x1b[42G".to_vec());
    assert_eq!(t.cursor_move_to_column(u16::MAX), Err(TerminalError::InvalidColumn));
    t.flush().unwrap();
    deliver(&mut t).unwrap();
    assert_eq!(rx.try_recv(), Err(TryRecvError::Empty));
}

#[test]
fn cursor_visibility_and_clearing() {
    let (mut t, mut rx) = terminal();
    t.cursor_hide().unwrap();
    t.cursor_show().unwrap();
    t.clear_line().unwrap();
    t.clear_until_new_line().unwrap();
    assert_eq!(flushed(&mut t, &mut rx), b"\x1b[?25l\x1b[?25h\x1b[2K\x1b[K".to_vec());
}

#[test]
fn each_flush_delivers_one_batch_in_order() {
    let (mut t, mut rx) = terminal();
    t.write("A").unwrap();
    t.flush().unwrap();
    t.write("B").unwrap();
    t.flush().unwrap();
    deliver(&mut t).unwrap();
    assert_eq!(rx.try_recv().unwrap(), b"A".to_vec());
    assert_eq!(rx.try_recv().unwrap(), b"B".to_vec());
    assert_eq!(rx.try_recv(), Err(TryRecvError::Empty));
}

#[test]
fn flush_with_nothing_queued_sends_nothing() {
    let (mut t, mut rx) = terminal();
    t.flush().unwrap();
    t.write("é").unwrap();
    t.flush().unwrap();
    t.flush().unwrap();
    deliver(&mut t).unwrap();
    assert_eq!(rx.try_recv().unwrap(), "é".as_bytes().to_vec());
    assert_eq!(rx.try_recv(), Err(TryRecvError::Empty));
}

#[test]
fn plain_styled_write_is_just_the_text() {
    let (mut t, mut rx) = terminal();
    t.write_styled(&Styled::new("plain".to_string())).unwrap();
    assert_eq!(flushed(&mut t, &mut rx), b"plain".to_vec());
}

#[test]
fn styled_write_sets_then_resets_each_aspect() {
    crossterm::style::force_color_output(true);
    let (mut t, mut rx) = terminal();
    let style = StyleSheet::new()
        .with_fg(Color::LightRed)
        .with_bg(Color::Rgb { r: 1, g: 20, b: 255 })
        .with_attr(Attributes::bold().union(Attributes::italic()));
    t.write_styled(&Styled::new("hi".to_string()).with_style(style)).unwrap();
    assert_eq!(
        flushed(&mut t, &mut rx),
        b"\x1b[38;5;9m\x1b[48;2;1;20;255m\x1b[1m\x1b[3mhi\x1b[39m\x1b[49m\x1b[0m".to_vec()
    );
}

#[test]
fn consecutive_styled_writes_do_not_bleed() {
    crossterm::style::force_color_output(true);
    let (mut t, mut rx) = terminal();
    let first = StyleSheet::new().with_fg(Color::AnsiValue(200));
    let second = StyleSheet::new().with_attr(Attributes::italic());
    t.write_styled(&Styled::new("a".to_string()).with_style(first)).unwrap();
    t.write_styled(&Styled::new("b".to_string()).with_style(second)).unwrap();
    t.write("c").unwrap();
    assert_eq!(
        flushed(&mut t, &mut rx),
        b"\x1b[38;5;200ma\x1b[39m\x1b[3mb\x1b[0mc".to_vec()
    );
}

#[test]
fn teardown_twice_keeps_queued_output_for_the_host() {
    let (mut t, mut rx) = terminal();
    t.write("bye").unwrap();
    t.close();
    t.close();
    assert_eq!(t.flush(), Ok(()));
    assert_eq!(t.take_batches(), vec![b"bye".to_vec()]);
    assert!(t.take_batches().is_empty());
    assert_eq!(rx.try_recv(), Err(TryRecvError::Empty));
    assert_eq!(rx.try_recv(), Err(TryRecvError::Empty));
}

#[test]
fn flush_to_a_closed_channel_reports_disconnection() {
    let (mut t, rx) = terminal();
    drop(rx);
    t.write("lost").unwrap();
    assert_eq!(t.flush(), Ok(()));
    assert_eq!(deliver(&mut t), Err(TerminalError::Disconnected));
    assert!(t.take_batches().is_empty());
    t.close();
}

#[test]
fn size_is_read_on_every_query() {
    let (tx, _rx) = tokio::sync::mpsc::channel::<Vec<u8>>(4);
    let (size_tx, size_rx) = tokio::sync::watch::channel(TerminalSize::new(80, 24));
    let t = CrosstermTerminal::new(tx, size_rx).unwrap();
    assert_eq!(t.get_size(), Ok(TerminalSize { width: 80, height: 24 }));
    size_tx.send(TerminalSize::new(120, 40)).unwrap();
    assert_eq!(t.get_size(), Ok(TerminalSize { width: 120, height: 40 }));
}

#[test]
fn factory_without_backend_is_a_configuration_error() {
    let r = get_default_terminal(None, None);
    assert!(matches!(r, Err(TerminalError::InvalidConfiguration)));
    let (tx, _rx) = tokio::sync::mpsc::channel::<Vec<u8>>(4);
    let r = get_default_terminal(None, Some(tx));
    assert!(matches!(r, Err(TerminalError::InvalidConfiguration)));
    let (_etx, erx) = tokio::sync::mpsc::channel(4);
    let (_stx, srx) = tokio::sync::watch::channel(TerminalSize::new(1, 1));
    let r = get_default_terminal(Some(EventSource { events: erx, size: srx }), None);
    assert!(matches!(r, Err(TerminalError::InvalidConfiguration)));
}

#[test]
fn factory_builds_a_connected_pair() {
    let (tx, mut rx) = tokio::sync::mpsc::channel::<Vec<u8>>(4);
    let (etx, erx) = tokio::sync::mpsc::channel(4);
    let (_stx, srx) = tokio::sync::watch::channel(TerminalSize::new(30, 10));
    let (mut reader, mut term) =
        get_default_terminal(Some(EventSource { events: erx, size: srx }), Some(tx)).unwrap();
    term.write("ok").unwrap();
    term.flush().unwrap();
    deliver(&mut term).unwrap();
    assert_eq!(rx.try_recv().unwrap(), b"ok".to_vec());
    assert_eq!(term.get_size(), Ok(TerminalSize::new(30, 10)));
    drop(etx);
    let ev = reader.source_mut().blocking_recv();
    assert_eq!(reader.handle_event(ev), Err(TerminalError::EndOfInput));
}
