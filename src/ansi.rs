//! The control sequences of the console backend's commands, byte for byte.
use vstd::prelude::*;
use crossterm::style::Attribute as BackendAttribute;
use crossterm::style::Color as BackendColor;
use crossterm::terminal::ClearType as BackendClearType;

verus! {

#[verifier::external_type_specification]
pub struct ExBackendColor(BackendColor);

#[verifier::external_type_specification]
pub struct ExBackendAttribute(BackendAttribute);

#[verifier::external_type_specification]
pub struct ExBackendClearType(BackendClearType);

/// The decimal digits of `n`, most significant first.
pub open spec fn decimal(n: nat) -> Seq<u8>
    decreases n,
{
    if n < 10 {
        seq![(48 + n) as u8]
    } else {
        decimal(n / 10).push((48 + n % 10) as u8)
    }
}

/// A control sequence: ESC, `[`, then `body`.
pub open spec fn csi(body: Seq<u8>) -> Seq<u8> {
    seq![0x1Bu8, 0x5Bu8] + body
}

/// `ESC [ n final`.
pub open spec fn csi_num(n: nat, fin: char) -> Seq<u8> {
    csi(decimal(n).push(fin as u8))
}

/// `5;n`: entry `n` of the 256-color palette.
pub open spec fn palette(n: nat) -> Seq<u8> {
    seq!['5' as u8, ';' as u8] + decimal(n)
}

/// The color part of a color parameter.
pub open spec fn color_params(c: BackendColor) -> Seq<u8> {
    match c {
        BackendColor::Black => palette(0),
        BackendColor::DarkRed => palette(1),
        BackendColor::DarkGreen => palette(2),
        BackendColor::DarkYellow => palette(3),
        BackendColor::DarkBlue => palette(4),
        BackendColor::DarkMagenta => palette(5),
        BackendColor::DarkCyan => palette(6),
        BackendColor::Grey => palette(7),
        BackendColor::DarkGrey => palette(8),
        BackendColor::Red => palette(9),
        BackendColor::Green => palette(10),
        BackendColor::Yellow => palette(11),
        BackendColor::Blue => palette(12),
        BackendColor::Magenta => palette(13),
        BackendColor::Cyan => palette(14),
        BackendColor::White => palette(15),
        BackendColor::AnsiValue(v) => palette(v as nat),
        BackendColor::Rgb { r, g, b } => seq!['2' as u8, ';' as u8] + decimal(r as nat) + seq![
            ';' as u8,
        ] + decimal(g as nat) + seq![';' as u8] + decimal(b as nat),
        BackendColor::Reset => Seq::empty(),
    }
}

/// `39` resets the foreground; `38;` and the color set it.
pub open spec fn fg_params(c: BackendColor) -> Seq<u8> {
    if c == BackendColor::Reset {
        seq!['3' as u8, '9' as u8]
    } else {
        seq!['3' as u8, '8' as u8, ';' as u8] + color_params(c)
    }
}

/// `49` resets the background; `48;` and the color set it.
pub open spec fn bg_params(c: BackendColor) -> Seq<u8> {
    if c == BackendColor::Reset {
        seq!['4' as u8, '9' as u8]
    } else {
        seq!['4' as u8, '8' as u8, ';' as u8] + color_params(c)
    }
}

/// A color sequence with parameters `params`, or, where color output is
/// turned off for the whole process, the same sequence without them.
pub open spec fn color_sequence_ok(params: Seq<u8>, b: Seq<u8>) -> bool {
    b == csi(params.push('m' as u8)) || b == csi(seq!['m' as u8])
}

/// Relies on `<crossterm::cursor::MoveUp as Command>::write_ansi`: writes `ESC [ n A`.
#[verifier::external_body]
pub(crate) fn move_up_sequence(n: u16) -> (r: Vec<u8>)
    ensures
        r@ == csi_num(n as nat, 'A'),
{
    let mut s = String::new();
    let _ = crossterm::Command::write_ansi(&crossterm::cursor::MoveUp(n), &mut s);
    s.into_bytes()
}

/// Relies on `<crossterm::cursor::MoveDown as Command>::write_ansi`: writes `ESC [ n B`.
#[verifier::external_body]
pub(crate) fn move_down_sequence(n: u16) -> (r: Vec<u8>)
    ensures
        r@ == csi_num(n as nat, 'B'),
{
    let mut s = String::new();
    let _ = crossterm::Command::write_ansi(&crossterm::cursor::MoveDown(n), &mut s);
    s.into_bytes()
}

/// Relies on `<crossterm::cursor::MoveRight as Command>::write_ansi`: writes `ESC [ n C`.
#[verifier::external_body]
pub(crate) fn move_right_sequence(n: u16) -> (r: Vec<u8>)
    ensures
        r@ == csi_num(n as nat, 'C'),
{
    let mut s = String::new();
    let _ = crossterm::Command::write_ansi(&crossterm::cursor::MoveRight(n), &mut s);
    s.into_bytes()
}

/// Relies on `<crossterm::cursor::MoveLeft as Command>::write_ansi`: writes `ESC [ n D`.
#[verifier::external_body]
pub(crate) fn move_left_sequence(n: u16) -> (r: Vec<u8>)
    ensures
        r@ == csi_num(n as nat, 'D'),
{
    let mut s = String::new();
    let _ = crossterm::Command::write_ansi(&crossterm::cursor::MoveLeft(n), &mut s);
    s.into_bytes()
}

/// Relies on `<crossterm::cursor::MoveToColumn as Command>::write_ansi`: writes
/// `ESC [ idx+1 G`, the column being 1-based on the wire. It adds one to `idx`,
/// which overflows on the largest `u16`.
#[verifier::external_body]
pub(crate) fn move_to_column_sequence(idx: u16) -> (r: Vec<u8>)
    requires
        idx < u16::MAX,
    ensures
        r@ == csi_num(idx as nat + 1, 'G'),
{
    let mut s = String::new();
    let _ = crossterm::Command::write_ansi(&crossterm::cursor::MoveToColumn(idx), &mut s);
    s.into_bytes()
}

/// Relies on `<crossterm::cursor::Hide as Command>::write_ansi`: writes `ESC [ ? 2 5 l`.
#[verifier::external_body]
pub(crate) fn hide_sequence() -> (r: Vec<u8>)
    ensures
        r@ == csi(seq!['?' as u8, '2' as u8, '5' as u8, 'l' as u8]),
{
    let mut s = String::new();
    let _ = crossterm::Command::write_ansi(&crossterm::cursor::Hide, &mut s);
    s.into_bytes()
}

/// Relies on `<crossterm::cursor::Show as Command>::write_ansi`: writes `ESC [ ? 2 5 h`.
#[verifier::external_body]
pub(crate) fn show_sequence() -> (r: Vec<u8>)
    ensures
        r@ == csi(seq!['?' as u8, '2' as u8, '5' as u8, 'h' as u8]),
{
    let mut s = String::new();
    let _ = crossterm::Command::write_ansi(&crossterm::cursor::Show, &mut s);
    s.into_bytes()
}

/// Relies on `<crossterm::terminal::Clear as Command>::write_ansi`: `ESC [ 2 K`
/// erases the current line, `ESC [ K` erases up to its end.
#[verifier::external_body]
pub(crate) fn clear_sequence(t: BackendClearType) -> (r: Vec<u8>)
    ensures
        t == BackendClearType::CurrentLine ==> r@ == csi(seq!['2' as u8, 'K' as u8]),
        t == BackendClearType::UntilNewLine ==> r@ == csi(seq!['K' as u8]),
{
    let mut s = String::new();
    let _ = crossterm::Command::write_ansi(&crossterm::terminal::Clear(t), &mut s);
    s.into_bytes()
}

/// Relies on `<crossterm::style::SetAttribute as Command>::write_ansi` with the
/// attribute's SGR code: `ESC [ 0 m` resets, `ESC [ 1 m` is bold, `ESC [ 3 m` italic.
#[verifier::external_body]
pub(crate) fn attribute_sequence(a: BackendAttribute) -> (r: Vec<u8>)
    ensures
        a == BackendAttribute::Reset ==> r@ == csi_num(0, 'm'),
        a == BackendAttribute::Bold ==> r@ == csi_num(1, 'm'),
        a == BackendAttribute::Italic ==> r@ == csi_num(3, 'm'),
{
    let mut s = String::new();
    let _ = crossterm::Command::write_ansi(&crossterm::style::SetAttribute(a), &mut s);
    s.into_bytes()
}

/// Relies on `<crossterm::style::SetForegroundColor as Command>::write_ansi`:
/// `ESC [ params m`, where the parameters come from the color's `Display`,
/// which leaves them out once the process turned color output off (the
/// `NO_COLOR` variable, or `force_color_output`).
#[verifier::external_body]
pub(crate) fn fg_color_sequence(c: BackendColor) -> (r: Vec<u8>)
    ensures
        color_sequence_ok(fg_params(c), r@),
{
    let mut s = String::new();
    let _ = crossterm::Command::write_ansi(&crossterm::style::SetForegroundColor(c), &mut s);
    s.into_bytes()
}

/// Relies on `<crossterm::style::SetBackgroundColor as Command>::write_ansi`:
/// as for the foreground, with the background's parameters.
#[verifier::external_body]
pub(crate) fn bg_color_sequence(c: BackendColor) -> (r: Vec<u8>)
    ensures
        color_sequence_ok(bg_params(c), r@),
{
    let mut s = String::new();
    let _ = crossterm::Command::write_ansi(&crossterm::style::SetBackgroundColor(c), &mut s);
    s.into_bytes()
}

} // verus!
