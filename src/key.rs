//! Key tokens and the classifier that turns raw key events into them.
use vstd::prelude::*;

verus! {

/// The raw key codes that the classifier tells apart. Every code that is not
/// a character, escape, tab or backspace is `Other`.
#[derive(Clone, Copy, Debug, PartialEq, Eq, Structural)]
pub enum KeyCode {
    Char(char),
    Esc,
    Tab,
    Backspace,
    Other,
}

/// A raw key event: its code, and whether the control modifier was held.
#[derive(Clone, Copy, Debug, PartialEq, Eq, Structural)]
pub struct KeyEvent {
    pub code: KeyCode,
    pub control: bool,
}

/// The named special keys.
#[derive(Clone, Copy, Debug, PartialEq, Eq, Structural)]
pub enum SpecialKey {
    Esc,
    Tab,
    Backspace,
}

/// A key token: exactly one of an alphanumeric character or a special key.
#[derive(Clone, Copy, Debug, PartialEq, Eq, Structural)]
pub struct VimKey {
    pub alphanumeric: Option<char>,
    pub special: Option<SpecialKey>,
}

impl VimKey {
    /// A token is exactly one of the two kinds.
    pub open spec fn wf(self) -> bool {
        self.alphanumeric is Some != self.special is Some
    }

    pub open spec fn is_escape(self) -> bool {
        self.special == Some(SpecialKey::Esc)
    }

    /// The token for the character `c`.
    pub fn alphanumeric_key(c: char) -> (r: VimKey)
        ensures
            r.alphanumeric == Some(c),
            r.special is None,
            r.wf(),
    {
        VimKey { alphanumeric: Some(c), special: None }
    }

    /// The token for the special key `key`.
    pub fn special_key(key: SpecialKey) -> (r: VimKey)
        ensures
            r.alphanumeric is None,
            r.special == Some(key),
            r.wf(),
    {
        VimKey { alphanumeric: None, special: Some(key) }
    }

    /// Classifies a raw key code; codes outside the recognised set are refused.
    pub fn try_from(code: KeyCode) -> (r: Result<VimKey, ()>)
        ensures
            match classify(code) {
                Some(k) => r == Ok::<VimKey, ()>(k),
                None => r is Err,
            },
            r is Ok ==> r->Ok_0.wf(),
    {
        match code {
            KeyCode::Char(c) => Ok(VimKey::alphanumeric_key(c)),
            KeyCode::Esc => Ok(VimKey::special_key(SpecialKey::Esc)),
            KeyCode::Tab => Ok(VimKey::special_key(SpecialKey::Tab)),
            KeyCode::Backspace => Ok(VimKey::special_key(SpecialKey::Backspace)),
            KeyCode::Other => Err(()),
        }
    }
}

/// The token that a raw key code stands for, if any.
pub open spec fn classify(code: KeyCode) -> Option<VimKey> {
    match code {
        KeyCode::Char(c) => Some(VimKey { alphanumeric: Some(c), special: None }),
        KeyCode::Esc => Some(VimKey { alphanumeric: None, special: Some(SpecialKey::Esc) }),
        KeyCode::Tab => Some(VimKey { alphanumeric: None, special: Some(SpecialKey::Tab) }),
        KeyCode::Backspace => Some(
            VimKey { alphanumeric: None, special: Some(SpecialKey::Backspace) },
        ),
        KeyCode::Other => None,
    }
}

/// The interrupt combination: control held together with the `c` key.
pub open spec fn is_interrupt(ev: KeyEvent) -> bool {
    ev.code == KeyCode::Char('c') && ev.control
}

/// Tells whether a key event is the interrupt combination.
pub fn is_ctrl_c(ev: KeyEvent) -> (r: bool)
    ensures
        r == is_interrupt(ev),
{
    match ev.code {
        KeyCode::Char(c) => c == 'c' && ev.control,
        _ => false,
    }
}

} // verus!
