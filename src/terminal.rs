//! The terminal contract, and the model of what a terminal has been told:
//! the commands it received, the bytes they become, and the style they leave.
use vstd::prelude::*;
use crossterm::style::Color as BackendColor;
use crate::ansi::{bg_params, color_sequence_ok, csi, csi_num, fg_params};
use crate::style::{native_color_of, StyleSheet, BOLD_BIT, ITALIC_BIT};
use crate::no_tty::{CrosstermKeyReader, CrosstermTerminal};
use vstd::utf8::encode_utf8;

verus! {

/// The size of a terminal in character cells.
#[derive(Clone, Copy, Debug, PartialEq, Eq, Structural)]
pub struct TerminalSize {
    pub width: u16,
    pub height: u16,
}

impl TerminalSize {
    pub fn new(width: u16, height: u16) -> (r: TerminalSize)
        ensures
            r.width == width,
            r.height == height,
    {
        TerminalSize { width, height }
    }
}

#[derive(Clone, Copy, Debug, PartialEq, Eq, Structural)]
pub enum TerminalError {
    /// The consumer of the output channel is gone.
    Disconnected,
    /// The event source is closed: no further keys will come.
    EndOfInput,
    /// The column is past the last one that can be addressed.
    InvalidColumn,
    /// No backend can be built from the configuration given.
    InvalidConfiguration,
}

/// What a rendering engine may ask of a terminal. A backend may fail on
/// its transport; what it was given when an operation succeeds is stated
/// over `commands`.
pub trait Terminal: Sized {
    /// Every command the terminal was given, in order.
    spec fn commands(&self) -> Seq<TermCommand>;

    fn get_size(&self) -> Result<TerminalSize, TerminalError>;

    fn write(&mut self, val: &str) -> (r: Result<(), TerminalError>)
        ensures
            r is Ok ==> final(self).commands() == old(self).commands().push(
                TermCommand::Print(encode_utf8(val@)),
            ),
    ;

    fn write_styled(&mut self, val: &crate::style::Styled) -> (r: Result<(), TerminalError>)
        ensures
            r is Ok ==> exists|cb: ColorBytes|
                cb.fit(val.style) && #[trigger] styled_commands(
                    val.style,
                    encode_utf8(val.content@),
                    cb,
                ) == final(self).commands().subrange(
                    old(self).commands().len() as int,
                    final(self).commands().len() as int,
                ) && final(self).commands().subrange(0, old(self).commands().len() as int)
                    == old(self).commands(),
    ;

    fn clear_line(&mut self) -> (r: Result<(), TerminalError>)
        ensures
            r is Ok ==> final(self).commands() == old(self).commands().push(
                TermCommand::ClearLine,
            ),
    ;

    fn clear_until_new_line(&mut self) -> (r: Result<(), TerminalError>)
        ensures
            r is Ok ==> final(self).commands() == old(self).commands().push(
                TermCommand::ClearUntilNewLine,
            ),
    ;

    fn cursor_hide(&mut self) -> (r: Result<(), TerminalError>)
        ensures
            r is Ok ==> final(self).commands() == old(self).commands().push(TermCommand::Hide),
    ;

    fn cursor_show(&mut self) -> (r: Result<(), TerminalError>)
        ensures
            r is Ok ==> final(self).commands() == old(self).commands().push(TermCommand::Show),
    ;

    /// A count of zero is no movement and sends no command.
    fn cursor_up(&mut self, cnt: u16) -> (r: Result<(), TerminalError>)
        ensures
            cnt == 0 ==> final(self).commands() == old(self).commands(),
            r is Ok && cnt > 0 ==> final(self).commands() == old(self).commands().push(
                TermCommand::MoveUp(cnt),
            ),
    ;

    fn cursor_down(&mut self, cnt: u16) -> (r: Result<(), TerminalError>)
        ensures
            cnt == 0 ==> final(self).commands() == old(self).commands(),
            r is Ok && cnt > 0 ==> final(self).commands() == old(self).commands().push(
                TermCommand::MoveDown(cnt),
            ),
    ;

    fn cursor_left(&mut self, cnt: u16) -> (r: Result<(), TerminalError>)
        ensures
            cnt == 0 ==> final(self).commands() == old(self).commands(),
            r is Ok && cnt > 0 ==> final(self).commands() == old(self).commands().push(
                TermCommand::MoveLeft(cnt),
            ),
    ;

    fn cursor_right(&mut self, cnt: u16) -> (r: Result<(), TerminalError>)
        ensures
            cnt == 0 ==> final(self).commands() == old(self).commands(),
            r is Ok && cnt > 0 ==> final(self).commands() == old(self).commands().push(
                TermCommand::MoveRight(cnt),
            ),
    ;

    /// Moves to the 0-based column `idx`.
    fn cursor_move_to_column(&mut self, idx: u16) -> (r: Result<(), TerminalError>)
        ensures
            r is Ok ==> final(self).commands() == old(self).commands().push(
                TermCommand::MoveToColumn(idx),
            ),
    ;

    /// Pushes buffered output on; it gives no command, so flushing twice is
    /// flushing once.
    fn flush(&mut self) -> (r: Result<(), TerminalError>)
        ensures
            final(self).commands() == old(self).commands(),
    ;
}

/// One command sent to a terminal.
pub ghost enum TermCommand {
    Print(Seq<u8>),
    MoveUp(u16),
    MoveDown(u16),
    MoveLeft(u16),
    MoveRight(u16),
    MoveToColumn(u16),
    Hide,
    Show,
    ClearLine,
    ClearUntilNewLine,
    /// Sets the foreground; the bytes that the backend wrote for it.
    SetFg(BackendColor, Seq<u8>),
    /// Sets the background; the bytes that the backend wrote for it.
    SetBg(BackendColor, Seq<u8>),
    SetBold,
    SetItalic,
    ResetAttributes,
}

/// The bytes of one command.
pub open spec fn command_bytes(c: TermCommand) -> Seq<u8> {
    match c {
        TermCommand::Print(b) => b,
        TermCommand::MoveUp(n) => csi_num(n as nat, 'A'),
        TermCommand::MoveDown(n) => csi_num(n as nat, 'B'),
        TermCommand::MoveRight(n) => csi_num(n as nat, 'C'),
        TermCommand::MoveLeft(n) => csi_num(n as nat, 'D'),
        TermCommand::MoveToColumn(n) => csi_num(n as nat + 1, 'G'),
        TermCommand::Hide => csi(seq!['?' as u8, '2' as u8, '5' as u8, 'l' as u8]),
        TermCommand::Show => csi(seq!['?' as u8, '2' as u8, '5' as u8, 'h' as u8]),
        TermCommand::ClearLine => csi(seq!['2' as u8, 'K' as u8]),
        TermCommand::ClearUntilNewLine => csi(seq!['K' as u8]),
        TermCommand::SetFg(_, b) => b,
        TermCommand::SetBg(_, b) => b,
        TermCommand::SetBold => csi_num(1, 'm'),
        TermCommand::SetItalic => csi_num(3, 'm'),
        TermCommand::ResetAttributes => csi_num(0, 'm'),
    }
}

/// The bytes of a run of commands, in order.
pub open spec fn commands_bytes(cs: Seq<TermCommand>) -> Seq<u8>
    decreases cs.len(),
{
    if cs.len() == 0 {
        Seq::empty()
    } else {
        commands_bytes(cs.drop_last()) + command_bytes(cs.last())
    }
}

/// The style that output is drawn in.
pub ghost struct ActiveStyle {
    pub fg: BackendColor,
    pub bg: BackendColor,
    pub bold: bool,
    pub italic: bool,
}

/// The terminal's style when nothing has been applied.
pub open spec fn plain() -> ActiveStyle {
    ActiveStyle { fg: BackendColor::Reset, bg: BackendColor::Reset, bold: false, italic: false }
}

/// The style after one command. Resetting the attributes resets the colors too.
pub open spec fn apply(s: ActiveStyle, c: TermCommand) -> ActiveStyle {
    match c {
        TermCommand::SetFg(x, _) => ActiveStyle { fg: x, ..s },
        TermCommand::SetBg(x, _) => ActiveStyle { bg: x, ..s },
        TermCommand::SetBold => ActiveStyle { bold: true, ..s },
        TermCommand::SetItalic => ActiveStyle { italic: true, ..s },
        TermCommand::ResetAttributes => plain(),
        _ => s,
    }
}

/// The style after a run of commands, starting from `s`.
pub open spec fn style_after(s: ActiveStyle, cs: Seq<TermCommand>) -> ActiveStyle
    decreases cs.len(),
{
    if cs.len() == 0 {
        s
    } else {
        apply(style_after(s, cs.drop_last()), cs.last())
    }
}

pub open spec fn opt_cmd(b: bool, c: TermCommand) -> Seq<TermCommand> {
    if b {
        seq![c]
    } else {
        Seq::empty()
    }
}

/// The commands that turn on the attributes of `a` that the backend draws.
pub open spec fn attribute_commands(a: crate::style::Attributes) -> Seq<TermCommand> {
    opt_cmd(a.has(BOLD_BIT), TermCommand::SetBold) + opt_cmd(a.has(ITALIC_BIT), TermCommand::SetItalic)
}

/// The bytes that the backend wrote for the color commands of one styled
/// write: setting and resetting the foreground and the background.
pub ghost struct ColorBytes {
    pub fg: Seq<u8>,
    pub bg: Seq<u8>,
    pub fg_reset: Seq<u8>,
    pub bg_reset: Seq<u8>,
}

impl ColorBytes {
    /// Each sequence is one that the backend writes for its color.
    pub open spec fn fit(self, style: StyleSheet) -> bool {
        &&& color_sequence_ok(fg_params(native_color_of(style.fg->0)), self.fg)
        &&& color_sequence_ok(bg_params(native_color_of(style.bg->0)), self.bg)
        &&& color_sequence_ok(fg_params(BackendColor::Reset), self.fg_reset)
        &&& color_sequence_ok(bg_params(BackendColor::Reset), self.bg_reset)
    }
}

/// The commands that render `text` in `style`: set each aspect that the style
/// has, print, then reset each aspect that was set.
pub open spec fn styled_commands(style: StyleSheet, text: Seq<u8>, cb: ColorBytes) -> Seq<
    TermCommand,
> {
    let has_att = style.att.bits != 0;
    opt_cmd(style.fg is Some, TermCommand::SetFg(native_color_of(style.fg->0), cb.fg))
        + opt_cmd(style.bg is Some, TermCommand::SetBg(native_color_of(style.bg->0), cb.bg))
        + opt_cmd(has_att && style.att.has(BOLD_BIT), TermCommand::SetBold)
        + opt_cmd(has_att && style.att.has(ITALIC_BIT), TermCommand::SetItalic)
        + seq![TermCommand::Print(text)]
        + opt_cmd(style.fg is Some, TermCommand::SetFg(BackendColor::Reset, cb.fg_reset))
        + opt_cmd(style.bg is Some, TermCommand::SetBg(BackendColor::Reset, cb.bg_reset))
        + opt_cmd(has_att, TermCommand::ResetAttributes)
}

pub proof fn lemma_commands_bytes_push(cs: Seq<TermCommand>, c: TermCommand)
    ensures
        commands_bytes(cs.push(c)) == commands_bytes(cs) + command_bytes(c),
{
    assert(cs.push(c).drop_last() =~= cs);
}

pub proof fn lemma_style_after_push(s: ActiveStyle, cs: Seq<TermCommand>, c: TermCommand)
    ensures
        style_after(s, cs.push(c)) == apply(style_after(s, cs), c),
{
    assert(cs.push(c).drop_last() =~= cs);
}

pub proof fn lemma_commands_bytes_append(a: Seq<TermCommand>, b: Seq<TermCommand>)
    ensures
        commands_bytes(a + b) == commands_bytes(a) + commands_bytes(b),
    decreases b.len(),
{
    if b.len() == 0 {
        assert(a + b =~= a);
        assert(commands_bytes(a) + commands_bytes(b) =~= commands_bytes(a));
    } else {
        lemma_commands_bytes_append(a, b.drop_last());
        assert((a + b).drop_last() =~= a + b.drop_last());
        assert((a + b).last() == b.last());
        assert(commands_bytes(a + b) =~= commands_bytes(a) + commands_bytes(b));
    }
}

/// Running two runs of commands one after the other is running the first,
/// then the second from where the first left the style.
pub proof fn lemma_style_after_append(s: ActiveStyle, a: Seq<TermCommand>, b: Seq<TermCommand>)
    ensures
        style_after(s, a + b) == style_after(style_after(s, a), b),
    decreases b.len(),
{
    if b.len() == 0 {
        assert(a + b =~= a);
    } else {
        lemma_style_after_append(s, a, b.drop_last());
        assert((a + b).drop_last() =~= a + b.drop_last());
        assert((a + b).last() == b.last());
    }
}

proof fn lemma_style_after_opt(s: ActiveStyle, b: bool, c: TermCommand)
    ensures
        style_after(s, opt_cmd(b, c)) == (if b {
            apply(s, c)
        } else {
            s
        }),
{
    if b {
        lemma_style_after_push(s, Seq::empty(), c);
        assert(Seq::<TermCommand>::empty().push(c) =~= opt_cmd(b, c));
    }
}

/// Rendering a styled value from the plain style leaves the plain style.
pub proof fn lemma_styled_neutral(style: StyleSheet, text: Seq<u8>, cb: ColorBytes)
    ensures
        style_after(plain(), styled_commands(style, text, cb)) == plain(),
{
    let has_att = style.att.bits != 0;
    let fg_set = opt_cmd(style.fg is Some, TermCommand::SetFg(native_color_of(style.fg->0), cb.fg));
    let bg_set = opt_cmd(style.bg is Some, TermCommand::SetBg(native_color_of(style.bg->0), cb.bg));
    let bold_set = opt_cmd(has_att && style.att.has(BOLD_BIT), TermCommand::SetBold);
    let italic_set = opt_cmd(has_att && style.att.has(ITALIC_BIT), TermCommand::SetItalic);
    let print = seq![TermCommand::Print(text)];
    let fg_reset = opt_cmd(style.fg is Some, TermCommand::SetFg(BackendColor::Reset, cb.fg_reset));
    let bg_reset = opt_cmd(style.bg is Some, TermCommand::SetBg(BackendColor::Reset, cb.bg_reset));
    let att_reset = opt_cmd(has_att, TermCommand::ResetAttributes);
    let s0 = plain();
    lemma_style_after_append(s0, fg_set + bg_set + bold_set + italic_set + print + fg_reset + bg_reset, att_reset);
    lemma_style_after_append(s0, fg_set + bg_set + bold_set + italic_set + print + fg_reset, bg_reset);
    lemma_style_after_append(s0, fg_set + bg_set + bold_set + italic_set + print, fg_reset);
    lemma_style_after_append(s0, fg_set + bg_set + bold_set + italic_set, print);
    lemma_style_after_append(s0, fg_set + bg_set + bold_set, italic_set);
    lemma_style_after_append(s0, fg_set + bg_set, bold_set);
    lemma_style_after_append(s0, fg_set, bg_set);
    lemma_style_after_opt(
        s0,
        style.fg is Some,
        TermCommand::SetFg(native_color_of(style.fg->0), cb.fg),
    );
    let s1 = style_after(s0, fg_set);
    lemma_style_after_opt(
        s1,
        style.bg is Some,
        TermCommand::SetBg(native_color_of(style.bg->0), cb.bg),
    );
    let s2 = style_after(s1, bg_set);
    lemma_style_after_opt(s2, has_att && style.att.has(BOLD_BIT), TermCommand::SetBold);
    let s3 = style_after(s2, bold_set);
    lemma_style_after_opt(s3, has_att && style.att.has(ITALIC_BIT), TermCommand::SetItalic);
    let s4 = style_after(s3, italic_set);
    lemma_style_after_push(s4, Seq::empty(), TermCommand::Print(text));
    assert(Seq::<TermCommand>::empty().push(TermCommand::Print(text)) =~= print);
    let s5 = style_after(s4, print);
    lemma_style_after_opt(s5, style.fg is Some, TermCommand::SetFg(BackendColor::Reset, cb.fg_reset));
    let s6 = style_after(s5, fg_reset);
    lemma_style_after_opt(s6, style.bg is Some, TermCommand::SetBg(BackendColor::Reset, cb.bg_reset));
    let s7 = style_after(s6, bg_reset);
    lemma_style_after_opt(s7, has_att, TermCommand::ResetAttributes);
}

/// The commands that set up `style` before its text is printed.
pub open spec fn style_set_commands(style: StyleSheet, cb: ColorBytes) -> Seq<TermCommand> {
    let has_att = style.att.bits != 0;
    opt_cmd(style.fg is Some, TermCommand::SetFg(native_color_of(style.fg->0), cb.fg))
        + opt_cmd(style.bg is Some, TermCommand::SetBg(native_color_of(style.bg->0), cb.bg))
        + opt_cmd(has_att && style.att.has(BOLD_BIT), TermCommand::SetBold)
        + opt_cmd(has_att && style.att.has(ITALIC_BIT), TermCommand::SetItalic)
}

/// The style that `style` asks for, over the plain one.
pub open spec fn style_of(style: StyleSheet) -> ActiveStyle {
    let has_att = style.att.bits != 0;
    ActiveStyle {
        fg: if style.fg is Some {
            native_color_of(style.fg->0)
        } else {
            BackendColor::Reset
        },
        bg: if style.bg is Some {
            native_color_of(style.bg->0)
        } else {
            BackendColor::Reset
        },
        bold: has_att && style.att.has(BOLD_BIT),
        italic: has_att && style.att.has(ITALIC_BIT),
    }
}

/// From the plain style, the set-up commands of `style` give exactly the
/// style it asks for.
pub proof fn lemma_style_set(style: StyleSheet, cb: ColorBytes)
    ensures
        style_after(plain(), style_set_commands(style, cb)) == style_of(style),
{
    let has_att = style.att.bits != 0;
    let fg_set = opt_cmd(style.fg is Some, TermCommand::SetFg(native_color_of(style.fg->0), cb.fg));
    let bg_set = opt_cmd(style.bg is Some, TermCommand::SetBg(native_color_of(style.bg->0), cb.bg));
    let bold_set = opt_cmd(has_att && style.att.has(BOLD_BIT), TermCommand::SetBold);
    let italic_set = opt_cmd(has_att && style.att.has(ITALIC_BIT), TermCommand::SetItalic);
    let s0 = plain();
    lemma_style_after_append(s0, fg_set + bg_set + bold_set, italic_set);
    lemma_style_after_append(s0, fg_set + bg_set, bold_set);
    lemma_style_after_append(s0, fg_set, bg_set);
    lemma_style_after_opt(s0, style.fg is Some, TermCommand::SetFg(native_color_of(style.fg->0), cb.fg));
    let s1 = style_after(s0, fg_set);
    lemma_style_after_opt(s1, style.bg is Some, TermCommand::SetBg(native_color_of(style.bg->0), cb.bg));
    let s2 = style_after(s1, bg_set);
    lemma_style_after_opt(s2, has_att && style.att.has(BOLD_BIT), TermCommand::SetBold);
    let s3 = style_after(s2, bold_set);
    lemma_style_after_opt(s3, has_att && style.att.has(ITALIC_BIT), TermCommand::SetItalic);
}

/// After a styled write from the plain style, the next styled write prints
/// its text in exactly its own style: nothing of the first one carries over.
pub proof fn lemma_second_write_in_own_style(
    before: Seq<TermCommand>,
    s1: StyleSheet,
    t1: Seq<u8>,
    cb1: ColorBytes,
    s2: StyleSheet,
    t2: Seq<u8>,
    cb2: ColorBytes,
)
    requires
        style_after(plain(), before) == plain(),
    ensures
        styled_commands(s2, t2, cb2).subrange(0, style_set_commands(s2, cb2).len() + 1 as int)
            == style_set_commands(s2, cb2).push(TermCommand::Print(t2)),
        style_after(plain(), before + styled_commands(s1, t1, cb1) + style_set_commands(s2, cb2))
            == style_of(s2),
{
    let set2 = style_set_commands(s2, cb2);
    assert(styled_commands(s2, t2, cb2).subrange(0, set2.len() + 1 as int) =~= set2.push(
        TermCommand::Print(t2),
    ));
    lemma_style_after_append(plain(), before + styled_commands(s1, t1, cb1), set2);
    lemma_style_after_append(plain(), before, styled_commands(s1, t1, cb1));
    lemma_styled_neutral(s1, t1, cb1);
    lemma_style_set(s2, cb2);
}

/// Two styled writes in a row, from any style that plain output has left,
/// leave the style as it was before the first.
pub proof fn lemma_two_styled_writes_neutral(
    before: Seq<TermCommand>,
    s1: StyleSheet,
    t1: Seq<u8>,
    cb1: ColorBytes,
    s2: StyleSheet,
    t2: Seq<u8>,
    cb2: ColorBytes,
)
    requires
        style_after(plain(), before) == plain(),
    ensures
        style_after(plain(), before + styled_commands(s1, t1, cb1) + styled_commands(s2, t2, cb2))
            == style_after(plain(), before),
{
    lemma_style_after_append(
        plain(),
        before + styled_commands(s1, t1, cb1),
        styled_commands(s2, t2, cb2),
    );
    lemma_style_after_append(plain(), before, styled_commands(s1, t1, cb1));
    lemma_styled_neutral(s1, t1, cb1);
    lemma_styled_neutral(s2, t2, cb2);
}

} // verus!

verus! {

/// What the virtualized backend needs from its host besides the output
/// channel: key events, and the size of the screen they are drawn on.
pub struct EventSource {
    pub events: tokio::sync::mpsc::Receiver<crate::native::NativeEvent>,
    pub size: tokio::sync::watch::Receiver<TerminalSize>,
}

/// Builds the reader and the terminal. Without an event source or an output
/// channel no backend can be built, and nothing is constructed.
pub fn get_default_terminal(
    source: Option<EventSource>,
    sender: Option<tokio::sync::mpsc::Sender<Vec<u8>>>,
) -> (r: Result<(CrosstermKeyReader, CrosstermTerminal), TerminalError>)
    ensures
        r is Ok <==> (source is Some && sender is Some),
        r is Err ==> r->Err_0 == TerminalError::InvalidConfiguration,
        r is Ok ==> {
            let (reader, term) = r->Ok_0;
            &&& reader.received().len() == 0
            &&& reader.source() == source->0.events
            &&& term.output() == sender->0
            &&& term.size_source() == source->0.size
            &&& term.wf()
            &&& term.raw_mode()
            &&& term.emitted().len() == 0
            &&& term.pending().len() == 0
            &&& term.outbox().len() == 0
        },
{
    match (source, sender) {
        (Some(source), Some(sender)) => {
            let reader = CrosstermKeyReader::new(source.events);
            let term = CrosstermTerminal::new(sender, source.size)?;
            Ok((reader, term))
        },
        _ => Err(TerminalError::InvalidConfiguration),
    }
}

} // verus!
