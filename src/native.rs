//! The native event model of the console backend, held as plain values, and
//! its normalization into logical keys.
use vstd::prelude::*;
use crate::key::{
    Key, KeyModifiers, ALL_MODIFIER_BITS, ALT_BIT, CONTROL_BIT, HYPER_BIT, META_BIT, SHIFT_BIT,
    SUPER_BIT,
};

verus! {

/// The modifier bits as the backend reports them.
#[derive(Clone, Copy, Debug, PartialEq, Eq, Structural)]
pub struct NativeKeyModifiers {
    pub bits: u8,
}

/// The key codes that the backend reports.
#[derive(Clone, Copy, Debug, PartialEq, Eq, Structural)]
pub enum NativeKeyCode {
    Backspace,
    Enter,
    Left,
    Right,
    Up,
    Down,
    Home,
    End,
    PageUp,
    PageDown,
    Tab,
    BackTab,
    Delete,
    Insert,
    F(u8),
    Char(char),
    Null,
    Esc,
    CapsLock,
    ScrollLock,
    NumLock,
    PrintScreen,
    Pause,
    Menu,
    KeypadBegin,
    Media,
    Modifier,
}

#[derive(Clone, Copy, Debug, PartialEq, Eq, Structural)]
pub enum NativeKeyEventKind {
    Press,
    Repeat,
    Release,
}

#[derive(Clone, Copy, Debug, PartialEq, Eq, Structural)]
pub struct NativeKeyEvent {
    pub code: NativeKeyCode,
    pub modifiers: NativeKeyModifiers,
    pub kind: NativeKeyEventKind,
}

/// An event of the outside event source.
#[derive(Clone, Debug, PartialEq, Eq)]
pub enum NativeEvent {
    FocusGained,
    FocusLost,
    Key(NativeKeyEvent),
    Mouse,
    Paste(String),
    Resize(u16, u16),
}

/// The logical modifier set of a native one: the known bits, nothing else.
pub open spec fn modifiers_of(m: NativeKeyModifiers) -> KeyModifiers {
    KeyModifiers { bits: m.bits & ALL_MODIFIER_BITS }
}

/// The logical key of a native key event.
pub open spec fn key_of(e: NativeKeyEvent) -> Key {
    let m = modifiers_of(e.modifiers);
    match e.code {
        NativeKeyCode::Esc => Key::Escape,
        NativeKeyCode::Enter => Key::Enter,
        NativeKeyCode::Tab => Key::Tab,
        NativeKeyCode::Backspace => Key::Backspace,
        NativeKeyCode::Delete => Key::Delete(m),
        NativeKeyCode::Home => Key::Home,
        NativeKeyCode::End => Key::End,
        NativeKeyCode::PageUp => Key::PageUp(m),
        NativeKeyCode::PageDown => Key::PageDown(m),
        NativeKeyCode::Up => Key::Up(m),
        NativeKeyCode::Down => Key::Down(m),
        NativeKeyCode::Left => Key::Left(m),
        NativeKeyCode::Right => Key::Right(m),
        NativeKeyCode::Char(c) => {
            if c == '\n' || c == '\r' {
                Key::Enter
            } else if c == '\t' {
                Key::Tab
            } else {
                Key::Char(c, m)
            }
        },
        _ => Key::Any,
    }
}

proof fn lemma_add_bit(n: u8, k: u8, b: u8)
    requires
        b == 1 || b == 2 || b == 4 || b == 8 || b == 16 || b == 32,
    ensures
        n & b == b ==> (n & k) | b == n & (k | b),
        n & b != b ==> n & k == n & (k | b),
{
    assert(n & b == b ==> (n & k) | b == n & (k | b)) by (bit_vector);
    assert((b == 1 || b == 2 || b == 4 || b == 8 || b == 16 || b == 32) ==> (n & b != b ==> n
        & k == n & (k | b))) by (bit_vector);
}

/// Translates a native modifier set bit by bit.
pub fn modifiers_from_native(m: NativeKeyModifiers) -> (r: KeyModifiers)
    ensures
        r == modifiers_of(m),
        r.wf(),
{
    let n = m.bits;
    let mut modifiers = KeyModifiers::empty();
    proof {
        assert(n & 0u8 == 0u8) by (bit_vector);
        assert(0u8 | 1u8 == 1u8 && 1u8 | 2u8 == 3u8 && 3u8 | 4u8 == 7u8 && 7u8 | 8u8 == 15u8
            && 15u8 | 16u8 == 31u8 && 31u8 | 32u8 == 63u8) by (bit_vector);
    }
    if n & SHIFT_BIT == SHIFT_BIT {
        modifiers = modifiers.union(KeyModifiers::shift());
    }
    proof {
        lemma_add_bit(n, 0, 1);
        assert(modifiers.bits == n & 1u8);
    }
    if n & CONTROL_BIT == CONTROL_BIT {
        modifiers = modifiers.union(KeyModifiers::control());
    }
    proof {
        lemma_add_bit(n, 1, 2);
        assert(modifiers.bits == n & 3u8);
    }
    if n & ALT_BIT == ALT_BIT {
        modifiers = modifiers.union(KeyModifiers::alt());
    }
    proof {
        lemma_add_bit(n, 3, 4);
        assert(modifiers.bits == n & 7u8);
    }
    if n & SUPER_BIT == SUPER_BIT {
        modifiers = modifiers.union(KeyModifiers::super_key());
    }
    proof {
        lemma_add_bit(n, 7, 8);
        assert(modifiers.bits == n & 15u8);
    }
    if n & HYPER_BIT == HYPER_BIT {
        modifiers = modifiers.union(KeyModifiers::hyper());
    }
    proof {
        lemma_add_bit(n, 15, 16);
        assert(modifiers.bits == n & 31u8);
    }
    if n & META_BIT == META_BIT {
        modifiers = modifiers.union(KeyModifiers::meta());
    }
    proof {
        lemma_add_bit(n, 31, 32);
        assert(modifiers.bits == n & 63u8);
    }
    modifiers
}

impl From<NativeKeyModifiers> for KeyModifiers {
    fn from(m: NativeKeyModifiers) -> (r: KeyModifiers) {
        modifiers_from_native(m)
    }
}

impl vstd::std_specs::convert::FromSpecImpl<NativeKeyModifiers> for KeyModifiers {
    open spec fn obeys_from_spec() -> bool {
        true
    }

    open spec fn from_spec(m: NativeKeyModifiers) -> KeyModifiers {
        modifiers_of(m)
    }
}

/// Normalizes one native key event into exactly one logical key.
pub fn key_from_event(e: NativeKeyEvent) -> (r: Key)
    ensures
        r == key_of(e),
{
    match e.code {
        NativeKeyCode::Esc => Key::Escape,
        NativeKeyCode::Enter => Key::Enter,
        NativeKeyCode::Char('\n') | NativeKeyCode::Char('\r') => Key::Enter,
        NativeKeyCode::Tab | NativeKeyCode::Char('\t') => Key::Tab,
        NativeKeyCode::Backspace => Key::Backspace,
        NativeKeyCode::Delete => Key::Delete(e.modifiers.into()),
        NativeKeyCode::Home => Key::Home,
        NativeKeyCode::End => Key::End,
        NativeKeyCode::PageUp => Key::PageUp(e.modifiers.into()),
        NativeKeyCode::PageDown => Key::PageDown(e.modifiers.into()),
        NativeKeyCode::Up => Key::Up(e.modifiers.into()),
        NativeKeyCode::Down => Key::Down(e.modifiers.into()),
        NativeKeyCode::Left => Key::Left(e.modifiers.into()),
        NativeKeyCode::Right => Key::Right(e.modifiers.into()),
        NativeKeyCode::Char(c) => Key::Char(c, e.modifiers.into()),
        _ => Key::Any,
    }
}

impl From<NativeKeyEvent> for Key {
    fn from(e: NativeKeyEvent) -> (r: Key) {
        key_from_event(e)
    }
}

impl vstd::std_specs::convert::FromSpecImpl<NativeKeyEvent> for Key {
    open spec fn obeys_from_spec() -> bool {
        true
    }

    open spec fn from_spec(e: NativeKeyEvent) -> Key {
        key_of(e)
    }
}

} // verus!

verus! {

/// The key of an event depends on its code and modifiers alone, so two
/// sources that report the same press agree on its key.
pub proof fn lemma_key_depends_on_code_and_modifiers(e1: NativeKeyEvent, e2: NativeKeyEvent)
    requires
        e1.code == e2.code,
        e1.modifiers == e2.modifiers,
    ensures
        key_of(e1) == key_of(e2),
{
}

/// Whatever else an event carries, a press of Left with Control alone is
/// `Left(Control)`.
pub proof fn lemma_control_left(e: NativeKeyEvent)
    requires
        e.code == NativeKeyCode::Left,
        e.modifiers.bits == CONTROL_BIT,
    ensures
        key_of(e) == Key::Left(KeyModifiers { bits: CONTROL_BIT }),
{
    assert(2u8 & 63u8 == 2u8) by (bit_vector);
}

} // verus!
