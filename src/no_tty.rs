//! The virtualized backend: output is queued as bytes, each flush turns the
//! queue into one batch for the host to send on its channel, and input comes
//! from an outside event source whose results the host hands in.
use vstd::prelude::*;
use vstd::utf8::encode_utf8;
use crossterm::style::Attribute as BackendAttribute;
use crossterm::style::Color as BackendColor;
use crossterm::terminal::ClearType as BackendClearType;
use tokio::sync::mpsc::Receiver as EventReceiver;
use tokio::sync::mpsc::Sender as BatchSender;
use tokio::sync::watch::Receiver as SizeReceiver;
use crate::ansi;
use crate::ansi::{bg_params, color_sequence_ok, csi, fg_params};
use crate::key::Key;
use crate::native::{key_from_event, key_of, NativeEvent, NativeKeyEventKind};
use crate::style::{
    native_color, native_color_of, Attributes, Color, Styled, BOLD_BIT, ITALIC_BIT,
};
use crate::terminal::{
    apply, attribute_commands, command_bytes, commands_bytes, lemma_commands_bytes_append,
    lemma_commands_bytes_push, lemma_style_after_append, lemma_style_after_push,
    lemma_styled_neutral, opt_cmd, plain, style_after, styled_commands, ColorBytes, TermCommand,
    Terminal, TerminalError, TerminalSize,
};

verus! {

#[verifier::external_type_specification]
#[verifier::external_body]
#[verifier::reject_recursive_types(T)]
pub struct ExBatchSender<T>(BatchSender<T>);

#[verifier::external_type_specification]
#[verifier::external_body]
#[verifier::reject_recursive_types(T)]
pub struct ExEventReceiver<T>(EventReceiver<T>);

#[verifier::external_type_specification]
#[verifier::external_body]
#[verifier::reject_recursive_types(T)]
pub struct ExSizeReceiver<T>(SizeReceiver<T>);

/// Relies on tokio's `watch::Receiver::borrow`: the size that the host
/// published last.
#[verifier::external_body]
fn latest_size(size: &SizeReceiver<TerminalSize>) -> (r: TerminalSize) {
    *size.borrow()
}

/// What one received event yields: the end of input when the source is
/// closed, the key of a key press, and nothing for any other event.
pub open spec fn outcome_of(ev: Option<NativeEvent>) -> Result<Option<Key>, TerminalError> {
    match ev {
        None => Err(TerminalError::EndOfInput),
        Some(NativeEvent::Key(e)) => {
            if e.kind == NativeKeyEventKind::Press {
                Ok(Some(key_of(e)))
            } else {
                Ok(None)
            }
        },
        Some(_) => Ok(None),
    }
}

/// Decides what a received event yields.
pub fn key_outcome(ev: Option<NativeEvent>) -> (r: Result<Option<Key>, TerminalError>)
    ensures
        r == outcome_of(ev),
{
    match ev {
        None => Err(TerminalError::EndOfInput),
        Some(NativeEvent::Key(e)) => {
            if matches!(e.kind, NativeKeyEventKind::Press) {
                Ok(Some(key_from_event(e)))
            } else {
                Ok(None)
            }
        },
        Some(_) => Ok(None),
    }
}

/// Reads keys from an outside event source. The host waits on the source
/// and hands each result to `handle_event`.
pub struct CrosstermKeyReader {
    event: EventReceiver<NativeEvent>,
    received: Ghost<Seq<Option<NativeEvent>>>,
}

impl CrosstermKeyReader {
    /// The event source this reader reads from.
    pub closed spec fn source(&self) -> EventReceiver<NativeEvent> {
        self.event
    }

    /// Every result of the event source so far, the end of input as `None`.
    pub closed spec fn received(&self) -> Seq<Option<NativeEvent>> {
        self.received@
    }

    pub fn new(event: EventReceiver<NativeEvent>) -> (r: CrosstermKeyReader)
        ensures
            r.source() == event,
            r.received() == Seq::<Option<NativeEvent>>::empty(),
    {
        CrosstermKeyReader { event, received: Ghost(Seq::empty()) }
    }

    /// The event source, for the host to wait on.
    pub fn source_mut(&mut self) -> (r: &mut EventReceiver<NativeEvent>)
        ensures
            *r == old(self).source(),
            final(self).source() == *final(r),
            final(self).received() == old(self).received(),
    {
        &mut self.event
    }

    /// Takes one result of the event source and says what it yields. A
    /// reader waits on the source and calls this until a key comes or the
    /// input ends.
    pub fn handle_event(&mut self, ev: Option<NativeEvent>) -> (r: Result<
        Option<Key>,
        TerminalError,
    >)
        ensures
            final(self).received() == old(self).received().push(ev),
            final(self).source() == old(self).source(),
            r == outcome_of(ev),
    {
        self.received = Ghost(self.received@.push(ev));
        key_outcome(ev)
    }
}

/// A terminal without a device: commands are queued as bytes, and each flush
/// moves what is queued to the outbox as one batch, which the host takes and
/// sends on the terminal's channel.
pub struct CrosstermTerminal {
    pending: Vec<u8>,
    sender: BatchSender<Vec<u8>>,
    size: SizeReceiver<TerminalSize>,
    raw_mode: bool,
    emitted: Ghost<Seq<TermCommand>>,
    unflushed: Ghost<Seq<TermCommand>>,
    outbox: Vec<Vec<u8>>,
}

impl CrosstermTerminal {
    /// The bytes queued since the last flush.
    pub closed spec fn pending(&self) -> Seq<u8> {
        self.pending@
    }

    /// Every command this terminal was given.
    pub closed spec fn emitted(&self) -> Seq<TermCommand> {
        self.emitted@
    }

    /// The commands given since the last flush.
    pub closed spec fn unflushed(&self) -> Seq<TermCommand> {
        self.unflushed@
    }

    /// The flushed batches that wait to be sent, oldest first.
    pub closed spec fn outbox(&self) -> Seq<Seq<u8>> {
        self.outbox.deep_view()
    }

    /// The channel that the batches go to.
    pub closed spec fn output(&self) -> BatchSender<Vec<u8>> {
        self.sender
    }

    /// Where the terminal's size is read from.
    pub closed spec fn size_source(&self) -> SizeReceiver<TerminalSize> {
        self.size
    }

    /// Whether input is in raw mode, from construction until teardown.
    pub closed spec fn raw_mode(&self) -> bool {
        self.raw_mode
    }

    /// The queue holds the bytes of the commands since the last flush, and
    /// the commands so far leave the plain style.
    pub open spec fn wf(&self) -> bool {
        &&& self.pending() == commands_bytes(self.unflushed())
        &&& style_after(plain(), self.emitted()) == plain()
    }

    /// `next` is this terminal after it was given the commands `cs`.
    pub open spec fn given(&self, next: &CrosstermTerminal, cs: Seq<TermCommand>) -> bool {
        &&& next.emitted() == self.emitted() + cs
        &&& next.unflushed() == self.unflushed() + cs
        &&& next.pending() == self.pending() + commands_bytes(cs)
        &&& next.outbox() == self.outbox()
        &&& next.output() == self.output()
        &&& next.size_source() == self.size_source()
        &&& next.raw_mode() == self.raw_mode()
    }

    /// `next` is this terminal after nothing happened to it.
    pub open spec fn unchanged(&self, next: &CrosstermTerminal) -> bool {
        &&& next.emitted() == self.emitted()
        &&& next.unflushed() == self.unflushed()
        &&& next.pending() == self.pending()
        &&& next.outbox() == self.outbox()
        &&& next.output() == self.output()
        &&& next.size_source() == self.size_source()
        &&& next.raw_mode() == self.raw_mode()
    }

    /// Builds the terminal and puts input in raw mode. Without a device raw
    /// mode has no effect outside this value.
    pub fn new(sender: BatchSender<Vec<u8>>, size: SizeReceiver<TerminalSize>) -> (r: Result<
        CrosstermTerminal,
        TerminalError,
    >)
        ensures
            r is Ok,
            r->Ok_0.wf(),
            r->Ok_0.raw_mode(),
            r->Ok_0.emitted().len() == 0,
            r->Ok_0.unflushed().len() == 0,
            r->Ok_0.pending().len() == 0,
            r->Ok_0.outbox().len() == 0,
            r->Ok_0.output() == sender,
            r->Ok_0.size_source() == size,
    {
        let t = CrosstermTerminal {
            pending: Vec::new(),
            sender,
            size,
            raw_mode: true,
            emitted: Ghost(Seq::empty()),
            unflushed: Ghost(Seq::empty()),
            outbox: Vec::new(),
        };
        proof {
            assert(t.pending@ =~= commands_bytes(Seq::empty()));
            assert(t.outbox.deep_view() =~= Seq::<Seq<u8>>::empty());
        }
        Ok(t)
    }

    /// Queues the bytes of one command.
    fn write_command(&mut self, cmd: Ghost<TermCommand>, bytes: Vec<u8>) -> (r: Result<
        (),
        TerminalError,
    >)
        requires
            bytes@ == command_bytes(cmd@),
        ensures
            r is Ok,
            old(self).given(final(self), seq![cmd@]),
    {
        let ghost cs = seq![cmd@];
        proof {
            lemma_commands_bytes_push(Seq::empty(), cmd@);
            assert(Seq::<TermCommand>::empty().push(cmd@) =~= cs);
            assert(commands_bytes(Seq::empty()) =~= Seq::<u8>::empty());
            assert(commands_bytes(cs) =~= bytes@);
        }
        let ghost before = self.pending@;
        self.pending.extend_from_slice(bytes.as_slice());
        assert(self.pending@ =~= before + bytes@);
        self.emitted = Ghost(self.emitted@ + cs);
        self.unflushed = Ghost(self.unflushed@ + cs);
        Ok(())
    }

    proof fn lemma_given_trans(
        a: &CrosstermTerminal,
        b: &CrosstermTerminal,
        c: &CrosstermTerminal,
        cs1: Seq<TermCommand>,
        cs2: Seq<TermCommand>,
    )
        requires
            a.given(b, cs1),
            b.given(c, cs2),
        ensures
            a.given(c, cs1 + cs2),
    {
        lemma_commands_bytes_append(cs1, cs2);
        assert(a.emitted() + cs1 + cs2 =~= a.emitted() + (cs1 + cs2));
        assert(a.unflushed() + cs1 + cs2 =~= a.unflushed() + (cs1 + cs2));
        assert(a.pending() + commands_bytes(cs1) + commands_bytes(cs2) =~= a.pending()
            + commands_bytes(cs1 + cs2));
    }

    proof fn lemma_given_none(a: &CrosstermTerminal, c: TermCommand)
        ensures
            a.given(a, opt_cmd(false, c)),
    {
        assert(a.emitted() + opt_cmd(false, c) =~= a.emitted());
        assert(a.unflushed() + opt_cmd(false, c) =~= a.unflushed());
        assert(a.pending() + commands_bytes(opt_cmd(false, c)) =~= a.pending());
    }

    /// Turns on bold and italic where `attributes` holds them.
    pub fn set_attributes(&mut self, attributes: Attributes) -> (r: Result<(), TerminalError>)
        ensures
            r is Ok,
            old(self).given(final(self), attribute_commands(attributes)),
    {
        let ghost t0 = *self;
        if attributes.contains(Attributes::bold()) {
            self.write_command(
                Ghost(TermCommand::SetBold),
                ansi::attribute_sequence(BackendAttribute::Bold),
            )?;
        } else {
            proof {
                Self::lemma_given_none(&t0, TermCommand::SetBold);
            }
        }
        let ghost t1 = *self;
        if attributes.contains(Attributes::italic()) {
            self.write_command(
                Ghost(TermCommand::SetItalic),
                ansi::attribute_sequence(BackendAttribute::Italic),
            )?;
        } else {
            proof {
                Self::lemma_given_none(&t1, TermCommand::SetItalic);
            }
        }
        proof {
            Self::lemma_given_trans(
                &t0,
                &t1,
                self,
                opt_cmd(attributes.has(1), TermCommand::SetBold),
                opt_cmd(attributes.has(2), TermCommand::SetItalic),
            );
        }
        Ok(())
    }

    /// Resets every attribute, and with them the colors.
    pub fn reset_attributes(&mut self) -> (r: Result<(), TerminalError>)
        ensures
            r is Ok,
            old(self).given(final(self), seq![TermCommand::ResetAttributes]),
    {
        self.write_command(
            Ghost(TermCommand::ResetAttributes),
            ansi::attribute_sequence(BackendAttribute::Reset),
        )
    }

    /// Sets the foreground; `b` is what the backend wrote for it.
    pub fn set_fg_color(&mut self, color: Color) -> (r: Result<(), TerminalError>)
        ensures
            r is Ok,
            exists|b: Seq<u8>|
                color_sequence_ok(fg_params(native_color_of(color)), b) && #[trigger] old(
                    self,
                ).given(final(self), seq![TermCommand::SetFg(native_color_of(color), b)]),
    {
        let c = native_color(color);
        let bytes = ansi::fg_color_sequence(c);
        let ghost b = bytes@;
        self.write_command(Ghost(TermCommand::SetFg(c, b)), bytes)
    }

    pub fn reset_fg_color(&mut self) -> (r: Result<(), TerminalError>)
        ensures
            r is Ok,
            exists|b: Seq<u8>|
                color_sequence_ok(fg_params(BackendColor::Reset), b) && #[trigger] old(
                    self,
                ).given(final(self), seq![TermCommand::SetFg(BackendColor::Reset, b)]),
    {
        let bytes = ansi::fg_color_sequence(BackendColor::Reset);
        let ghost b = bytes@;
        self.write_command(Ghost(TermCommand::SetFg(BackendColor::Reset, b)), bytes)
    }

    /// Sets the background; `b` is what the backend wrote for it.
    pub fn set_bg_color(&mut self, color: Color) -> (r: Result<(), TerminalError>)
        ensures
            r is Ok,
            exists|b: Seq<u8>|
                color_sequence_ok(bg_params(native_color_of(color)), b) && #[trigger] old(
                    self,
                ).given(final(self), seq![TermCommand::SetBg(native_color_of(color), b)]),
    {
        let c = native_color(color);
        let bytes = ansi::bg_color_sequence(c);
        let ghost b = bytes@;
        self.write_command(Ghost(TermCommand::SetBg(c, b)), bytes)
    }

    pub fn reset_bg_color(&mut self) -> (r: Result<(), TerminalError>)
        ensures
            r is Ok,
            exists|b: Seq<u8>|
                color_sequence_ok(bg_params(BackendColor::Reset), b) && #[trigger] old(
                    self,
                ).given(final(self), seq![TermCommand::SetBg(BackendColor::Reset, b)]),
    {
        let bytes = ansi::bg_color_sequence(BackendColor::Reset);
        let ghost b = bytes@;
        self.write_command(Ghost(TermCommand::SetBg(BackendColor::Reset, b)), bytes)
    }
}

impl CrosstermTerminal {
    /// Queues one command that leaves the style as it is.
    fn write_plain_command(&mut self, cmd: Ghost<TermCommand>, bytes: Vec<u8>) -> (r: Result<
        (),
        TerminalError,
    >)
        requires
            bytes@ == command_bytes(cmd@),
            apply(plain(), cmd@) == plain(),
        ensures
            r is Ok,
            old(self).given(final(self), seq![cmd@]),
            old(self).wf() ==> final(self).wf(),
    {
        let ghost t0 = *self;
        let r = self.write_command(cmd, bytes);
        proof {
            lemma_style_after_push(plain(), Seq::empty(), cmd@);
            assert(Seq::<TermCommand>::empty().push(cmd@) =~= seq![cmd@]);
            Self::lemma_given_keeps_wf(&t0, self, seq![cmd@]);
        }
        r
    }

    /// Giving a terminal commands that keep the plain style keeps it well formed.
    pub proof fn lemma_given_keeps_wf(
        a: &CrosstermTerminal,
        b: &CrosstermTerminal,
        cs: Seq<TermCommand>,
    )
        requires
            a.given(b, cs),
            style_after(plain(), cs) == plain(),
        ensures
            a.wf() ==> b.wf(),
    {
        lemma_commands_bytes_append(a.unflushed(), cs);
        lemma_style_after_append(plain(), a.emitted(), cs);
    }

    /// Ends the terminal's life: moves what is queued to the outbox, for the
    /// host to send, then leaves raw mode. Nothing here can fail or wait;
    /// running it again does no harm.
    pub fn close(&mut self)
        ensures
            !final(self).raw_mode(),
            final(self).pending().len() == 0,
            final(self).emitted() == old(self).emitted(),
            final(self).output() == old(self).output(),
            final(self).size_source() == old(self).size_source(),
            old(self).pending().len() == 0 ==> final(self).outbox() == old(self).outbox(),
            old(self).pending().len() > 0 ==> final(self).outbox() == old(self).outbox().push(
                old(self).pending(),
            ),
            old(self).wf() ==> final(self).wf(),
    {
        let _unused = self.flush();
        self.raw_mode = false;
    }

    /// Hands the batches that wait in the outbox to the host, oldest first,
    /// and empties the outbox.
    pub fn take_batches(&mut self) -> (r: Vec<Vec<u8>>)
        ensures
            r.deep_view() == old(self).outbox(),
            final(self).outbox().len() == 0,
            final(self).emitted() == old(self).emitted(),
            final(self).unflushed() == old(self).unflushed(),
            final(self).pending() == old(self).pending(),
            final(self).raw_mode() == old(self).raw_mode(),
            final(self).output() == old(self).output(),
            final(self).size_source() == old(self).size_source(),
            old(self).wf() ==> final(self).wf(),
    {
        let mut batches: Vec<Vec<u8>> = Vec::new();
        std::mem::swap(&mut batches, &mut self.outbox);
        proof {
            assert(self.outbox.deep_view() =~= Seq::<Seq<u8>>::empty());
        }
        batches
    }

    /// The channel that the host sends the batches to.
    pub fn sender(&self) -> (r: &BatchSender<Vec<u8>>)
        ensures
            *r == self.output(),
    {
        &self.sender
    }
}

impl Terminal for CrosstermTerminal {
    open spec fn commands(&self) -> Seq<TermCommand> {
        self.emitted()
    }

    fn cursor_up(&mut self, cnt: u16) -> (r: Result<(), TerminalError>)
        ensures
            r is Ok,
            cnt == 0 ==> old(self).unchanged(final(self)),
            cnt > 0 ==> old(self).given(final(self), seq![TermCommand::MoveUp(cnt)]),
            old(self).wf() ==> final(self).wf(),
    {
        if cnt == 0 {
            Ok(())
        } else {
            self.write_plain_command(Ghost(TermCommand::MoveUp(cnt)), ansi::move_up_sequence(cnt))
        }
    }

    fn cursor_down(&mut self, cnt: u16) -> (r: Result<(), TerminalError>)
        ensures
            r is Ok,
            cnt == 0 ==> old(self).unchanged(final(self)),
            cnt > 0 ==> old(self).given(final(self), seq![TermCommand::MoveDown(cnt)]),
            old(self).wf() ==> final(self).wf(),
    {
        if cnt == 0 {
            Ok(())
        } else {
            self.write_plain_command(Ghost(TermCommand::MoveDown(cnt)), ansi::move_down_sequence(cnt))
        }
    }

    fn cursor_left(&mut self, cnt: u16) -> (r: Result<(), TerminalError>)
        ensures
            r is Ok,
            cnt == 0 ==> old(self).unchanged(final(self)),
            cnt > 0 ==> old(self).given(final(self), seq![TermCommand::MoveLeft(cnt)]),
            old(self).wf() ==> final(self).wf(),
    {
        if cnt == 0 {
            Ok(())
        } else {
            self.write_plain_command(Ghost(TermCommand::MoveLeft(cnt)), ansi::move_left_sequence(cnt))
        }
    }

    fn cursor_right(&mut self, cnt: u16) -> (r: Result<(), TerminalError>)
        ensures
            r is Ok,
            cnt == 0 ==> old(self).unchanged(final(self)),
            cnt > 0 ==> old(self).given(final(self), seq![TermCommand::MoveRight(cnt)]),
            old(self).wf() ==> final(self).wf(),
    {
        if cnt == 0 {
            Ok(())
        } else {
            self.write_plain_command(Ghost(TermCommand::MoveRight(cnt)), ansi::move_right_sequence(cnt))
        }
    }

    fn cursor_move_to_column(&mut self, idx: u16) -> (r: Result<(), TerminalError>)
        ensures
            idx < u16::MAX ==> r is Ok && old(self).given(
                final(self),
                seq![TermCommand::MoveToColumn(idx)],
            ),
            idx == u16::MAX ==> r is Err && old(self).unchanged(final(self)),
            old(self).wf() ==> final(self).wf(),
    {
        if idx == u16::MAX {
            Err(TerminalError::InvalidColumn)
        } else {
            self.write_plain_command(
                Ghost(TermCommand::MoveToColumn(idx)),
                ansi::move_to_column_sequence(idx),
            )
        }
    }

    fn cursor_hide(&mut self) -> (r: Result<(), TerminalError>)
        ensures
            r is Ok,
            old(self).given(final(self), seq![TermCommand::Hide]),
            old(self).wf() ==> final(self).wf(),
    {
        self.write_plain_command(Ghost(TermCommand::Hide), ansi::hide_sequence())
    }

    fn cursor_show(&mut self) -> (r: Result<(), TerminalError>)
        ensures
            r is Ok,
            old(self).given(final(self), seq![TermCommand::Show]),
            old(self).wf() ==> final(self).wf(),
    {
        self.write_plain_command(Ghost(TermCommand::Show), ansi::show_sequence())
    }

    fn clear_line(&mut self) -> (r: Result<(), TerminalError>)
        ensures
            r is Ok,
            old(self).given(final(self), seq![TermCommand::ClearLine]),
            old(self).wf() ==> final(self).wf(),
    {
        self.write_plain_command(
            Ghost(TermCommand::ClearLine),
            ansi::clear_sequence(BackendClearType::CurrentLine),
        )
    }

    fn clear_until_new_line(&mut self) -> (r: Result<(), TerminalError>)
        ensures
            r is Ok,
            old(self).given(final(self), seq![TermCommand::ClearUntilNewLine]),
            old(self).wf() ==> final(self).wf(),
    {
        self.write_plain_command(
            Ghost(TermCommand::ClearUntilNewLine),
            ansi::clear_sequence(BackendClearType::UntilNewLine),
        )
    }

    fn write(&mut self, val: &str) -> (r: Result<(), TerminalError>)
        ensures
            r is Ok,
            old(self).given(final(self), seq![TermCommand::Print(encode_utf8(val@))]),
            old(self).wf() ==> final(self).wf(),
    {
        let bytes = vstd::slice::slice_to_vec(val.as_bytes());
        self.write_plain_command(Ghost(TermCommand::Print(encode_utf8(val@))), bytes)
    }

    fn write_styled(&mut self, val: &Styled) -> (r: Result<(), TerminalError>)
        ensures
            r is Ok,
            exists|cb: ColorBytes|
                cb.fit(val.style) && #[trigger] old(self).given(
                    final(self),
                    styled_commands(val.style, encode_utf8(val.content@), cb),
                ),
            old(self).wf() ==> final(self).wf(),
    {
        let ghost style = val.style;
        let ghost has_att = style.att.bits != 0;
        let ghost text = encode_utf8(val.content@);
        let ghost fgc = native_color_of(style.fg->0);
        let ghost bgc = native_color_of(style.bg->0);
        // What the backend writes for each color command; an aspect that the
        // style does not set keeps the sequence it would have had.
        let ghost mut cb = ColorBytes {
            fg: csi(fg_params(fgc).push('m' as u8)),
            bg: csi(bg_params(bgc).push('m' as u8)),
            fg_reset: csi(fg_params(BackendColor::Reset).push('m' as u8)),
            bg_reset: csi(bg_params(BackendColor::Reset).push('m' as u8)),
        };
        let ghost t0 = *self;
        if let Some(color) = val.style.fg {
            self.set_fg_color(color)?;
            proof {
                let b = choose|b: Seq<u8>|
                    color_sequence_ok(fg_params(fgc), b) && #[trigger] t0.given(
                        self,
                        seq![TermCommand::SetFg(fgc, b)],
                    );
                cb.fg = b;
            }
        } else {
            proof {
                Self::lemma_given_none(&t0, TermCommand::SetFg(fgc, cb.fg));
            }
        }
        let ghost t1 = *self;
        if let Some(color) = val.style.bg {
            self.set_bg_color(color)?;
            proof {
                let b = choose|b: Seq<u8>|
                    color_sequence_ok(bg_params(bgc), b) && #[trigger] t1.given(
                        self,
                        seq![TermCommand::SetBg(bgc, b)],
                    );
                cb.bg = b;
            }
        } else {
            proof {
                Self::lemma_given_none(&t1, TermCommand::SetBg(bgc, cb.bg));
            }
        }
        let ghost t2 = *self;
        let ghost att_set = opt_cmd(has_att && style.att.has(BOLD_BIT), TermCommand::SetBold) + opt_cmd(
            has_att && style.att.has(ITALIC_BIT),
            TermCommand::SetItalic,
        );
        if !val.style.att.is_empty() {
            self.set_attributes(val.style.att)?;
        } else {
            proof {
                Self::lemma_given_none(&t2, TermCommand::SetBold);
                assert(att_set =~= opt_cmd(false, TermCommand::SetBold));
            }
        }
        let ghost t3 = *self;
        let bytes = vstd::slice::slice_to_vec(val.content.as_str().as_bytes());
        self.write_command(Ghost(TermCommand::Print(text)), bytes)?;
        let ghost t4 = *self;
        if val.style.fg.as_ref().is_some() {
            self.reset_fg_color()?;
            proof {
                let b = choose|b: Seq<u8>|
                    color_sequence_ok(fg_params(BackendColor::Reset), b) && #[trigger] t4.given(
                        self,
                        seq![TermCommand::SetFg(BackendColor::Reset, b)],
                    );
                cb.fg_reset = b;
            }
        } else {
            proof {
                Self::lemma_given_none(&t4, TermCommand::SetFg(BackendColor::Reset, cb.fg_reset));
            }
        }
        let ghost t5 = *self;
        if val.style.bg.as_ref().is_some() {
            self.reset_bg_color()?;
            proof {
                let b = choose|b: Seq<u8>|
                    color_sequence_ok(bg_params(BackendColor::Reset), b) && #[trigger] t5.given(
                        self,
                        seq![TermCommand::SetBg(BackendColor::Reset, b)],
                    );
                cb.bg_reset = b;
            }
        } else {
            proof {
                Self::lemma_given_none(&t5, TermCommand::SetBg(BackendColor::Reset, cb.bg_reset));
            }
        }
        let ghost t6 = *self;
        if !val.style.att.is_empty() {
            self.reset_attributes()?;
        } else {
            proof {
                Self::lemma_given_none(&t6, TermCommand::ResetAttributes);
            }
        }
        proof {
            let fg_set = opt_cmd(style.fg is Some, TermCommand::SetFg(fgc, cb.fg));
            let bg_set = opt_cmd(style.bg is Some, TermCommand::SetBg(bgc, cb.bg));
            let print = seq![TermCommand::Print(text)];
            let fg_reset = opt_cmd(style.fg is Some, TermCommand::SetFg(BackendColor::Reset, cb.fg_reset));
            let bg_reset = opt_cmd(style.bg is Some, TermCommand::SetBg(BackendColor::Reset, cb.bg_reset));
            let att_reset = opt_cmd(has_att, TermCommand::ResetAttributes);
            assert(t0.given(&t1, fg_set));
            assert(t1.given(&t2, bg_set));
            assert(t2.given(&t3, att_set));
            assert(t3.given(&t4, print));
            assert(t4.given(&t5, fg_reset));
            assert(t5.given(&t6, bg_reset));
            assert(t6.given(self, att_reset));
            Self::lemma_given_trans(&t0, &t1, &t2, fg_set, bg_set);
            Self::lemma_given_trans(&t0, &t2, &t3, fg_set + bg_set, att_set);
            Self::lemma_given_trans(&t0, &t3, &t4, fg_set + bg_set + att_set, print);
            Self::lemma_given_trans(&t0, &t4, &t5, fg_set + bg_set + att_set + print, fg_reset);
            Self::lemma_given_trans(&t0, &t5, &t6, fg_set + bg_set + att_set + print + fg_reset, bg_reset);
            Self::lemma_given_trans(&t0, &t6, self, fg_set + bg_set + att_set + print + fg_reset + bg_reset, att_reset);
            assert(fg_set + bg_set + att_set + print + fg_reset + bg_reset + att_reset =~= styled_commands(style, text, cb));
            lemma_styled_neutral(style, text, cb);
            Self::lemma_given_keeps_wf(&t0, self, styled_commands(style, text, cb));
            assert(cb.fit(style));
        }
        Ok(())
    }

    /// Moves what is queued to the outbox as one batch; with nothing queued
    /// it does nothing, so a second flush adds no batch.
    fn flush(&mut self) -> (r: Result<(), TerminalError>)
        ensures
            r is Ok,
            old(self).pending().len() == 0 ==> old(self).unchanged(final(self)),
            old(self).pending().len() > 0 ==> {
                &&& final(self).pending().len() == 0
                &&& final(self).unflushed().len() == 0
                &&& final(self).emitted() == old(self).emitted()
                &&& final(self).raw_mode() == old(self).raw_mode()
                &&& final(self).output() == old(self).output()
                &&& final(self).size_source() == old(self).size_source()
                &&& final(self).outbox() == old(self).outbox().push(old(self).pending())
            },
            old(self).wf() ==> final(self).wf(),
    {
        if self.pending.len() == 0 {
            return Ok(());
        }
        let mut batch: Vec<u8> = Vec::new();
        std::mem::swap(&mut batch, &mut self.pending);
        self.unflushed = Ghost(Seq::empty());
        proof {
            assert(self.pending@ =~= commands_bytes(Seq::empty()));
        }
        let ghost before = self.outbox.deep_view();
        let ghost old_outbox = self.outbox@;
        proof {
            assert(batch.deep_view() =~= batch@);
        }
        let ghost b = batch.deep_view();
        self.outbox.push(batch);
        proof {
            assert(self.outbox@ == old_outbox.push(batch));
            assert forall|i: int| 0 <= i < self.outbox@.len() implies #[trigger] self.outbox.deep_view()[i]
                == before.push(b)[i] by {
                if i < old_outbox.len() {
                    assert(self.outbox@[i] == old_outbox[i]);
                }
            }
            assert(self.outbox.deep_view() =~= before.push(b));
        }
        Ok(())
    }

    /// The size that the host published last.
    fn get_size(&self) -> (r: Result<TerminalSize, TerminalError>)
        ensures
            r is Ok,
    {
        Ok(latest_size(&self.size))
    }
}

} // verus!
