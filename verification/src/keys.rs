//! The key encoder.
//!
//! A pure, deterministic mapping from a terminal key press to the raw byte
//! sequence an interactive terminal program expects: printable characters as
//! their UTF-8 encoding, control-modified characters as C0 control bytes,
//! and named keys as their conventional escape sequences.

use vstd::prelude::*;

verus! {

/// A key identified by a terminal key event.
#[derive(Debug, Clone, Copy, PartialEq, Eq, Structural)]
pub enum KeyCode {
    /// A printable character.
    Char(char),
    /// The return key.
    Enter,
    /// The backspace key.
    Backspace,
    /// The left arrow.
    Left,
    /// The right arrow.
    Right,
    /// The up arrow.
    Up,
    /// The down arrow.
    Down,
    /// The tab key.
    Tab,
    /// The home key.
    Home,
    /// The end key.
    End,
    /// The page-up key.
    PageUp,
    /// The page-down key.
    PageDown,
    /// Shift-tab.
    BackTab,
    /// The delete key.
    Delete,
    /// The insert key.
    Insert,
    /// The escape key.
    Esc,
    /// Any other key: it produces no bytes.
    Other,
}

/// A key press: the key, and whether the control modifier alone was held.
#[derive(Debug, Clone, Copy, PartialEq, Eq, Structural)]
pub struct KeyPress {
    /// The key pressed.
    pub code: KeyCode,
    /// True exactly when the control modifier, and no other, was held.
    pub ctrl: bool,
}

/// The UTF-8 encoding of one character.
pub open spec fn utf8_of(c: char) -> Seq<u8> {
    let u = c as u32;
    if u < 0x80 {
        seq![u as u8]
    } else if u < 0x800 {
        seq![(0xC0u32 | (u >> 6u32)) as u8, (0x80u32 | (u & 0x3Fu32)) as u8]
    } else if u < 0x10000 {
        seq![
            (0xE0u32 | (u >> 12u32)) as u8,
            (0x80u32 | ((u >> 6u32) & 0x3Fu32)) as u8,
            (0x80u32 | (u & 0x3Fu32)) as u8,
        ]
    } else {
        seq![
            (0xF0u32 | (u >> 18u32)) as u8,
            (0x80u32 | ((u >> 12u32) & 0x3Fu32)) as u8,
            (0x80u32 | ((u >> 6u32) & 0x3Fu32)) as u8,
            (0x80u32 | (u & 0x3Fu32)) as u8,
        ]
    }
}

/// ASCII upper-casing on code points: lower-case letters move down by 32.
pub open spec fn ascii_upper(u: u32) -> u32 {
    if 97 <= u <= 122 {
        (u - 32) as u32
    } else {
        u
    }
}

/// The bytes produced for a character pressed together with the control
/// modifier: the conventional C0 control byte where one exists, otherwise
/// the character's own UTF-8 encoding.
pub open spec fn ctrl_bytes(c: char) -> Seq<u8> {
    let u = ascii_upper(c as u32);
    if u == 50 || u == 64 || u == 32 {
        seq![0u8]
    } else if u == 51 || u == 91 {
        seq![27u8]
    } else if u == 52 || u == 92 {
        seq![28u8]
    } else if u == 53 || u == 93 {
        seq![29u8]
    } else if u == 54 || u == 94 {
        seq![30u8]
    } else if u == 55 || u == 45 || u == 95 {
        seq![31u8]
    } else if 65 <= u <= 95 {
        seq![(u - 64) as u8]
    } else {
        utf8_of(c)
    }
}

/// The byte sequence for one key press, or nothing for an unrecognized key.
pub open spec fn key_bytes(k: KeyPress) -> Option<Seq<u8>> {
    match k.code {
        KeyCode::Char(c) => Some(
            if k.ctrl {
                ctrl_bytes(c)
            } else {
                utf8_of(c)
            },
        ),
        KeyCode::Enter => Some(seq![10u8]),
        KeyCode::Backspace => Some(seq![8u8]),
        KeyCode::Left => Some(seq![27u8, 91, 68]),
        KeyCode::Right => Some(seq![27u8, 91, 67]),
        KeyCode::Up => Some(seq![27u8, 91, 65]),
        KeyCode::Down => Some(seq![27u8, 91, 66]),
        KeyCode::Tab => Some(seq![9u8]),
        KeyCode::Home => Some(seq![27u8, 91, 72]),
        KeyCode::End => Some(seq![27u8, 91, 70]),
        KeyCode::PageUp => Some(seq![27u8, 91, 53, 126]),
        KeyCode::PageDown => Some(seq![27u8, 91, 54, 126]),
        KeyCode::BackTab => Some(seq![27u8, 91, 90]),
        KeyCode::Delete => Some(seq![27u8, 91, 51, 126]),
        KeyCode::Insert => Some(seq![27u8, 91, 50, 126]),
        KeyCode::Esc => Some(seq![27u8]),
        KeyCode::Other => None,
    }
}

/// Encodes one character as UTF-8.
fn encode_utf8_char(c: char) -> (r: Vec<u8>)
    ensures
        r@ == utf8_of(c),
{
    let u = c as u32;
    if u < 0x80 {
        let r: Vec<u8> = vec![u as u8];
        proof {
            assert(r@ =~= utf8_of(c));
        }
        r
    } else if u < 0x800 {
        let b0: u8 = (0xC0u32 | (u >> 6u32)) as u8;
        let b1: u8 = (0x80u32 | (u & 0x3Fu32)) as u8;
        let r: Vec<u8> = vec![b0, b1];
        proof {
            assert(r@ =~= utf8_of(c));
        }
        r
    } else if u < 0x10000 {
        let b0: u8 = (0xE0u32 | (u >> 12u32)) as u8;
        let b1: u8 = (0x80u32 | ((u >> 6u32) & 0x3Fu32)) as u8;
        let b2: u8 = (0x80u32 | (u & 0x3Fu32)) as u8;
        let r: Vec<u8> = vec![b0, b1, b2];
        proof {
            assert(r@ =~= utf8_of(c));
        }
        r
    } else {
        let b0: u8 = (0xF0u32 | (u >> 18u32)) as u8;
        let b1: u8 = (0x80u32 | ((u >> 12u32) & 0x3Fu32)) as u8;
        let b2: u8 = (0x80u32 | ((u >> 6u32) & 0x3Fu32)) as u8;
        let b3: u8 = (0x80u32 | (u & 0x3Fu32)) as u8;
        let r: Vec<u8> = vec![b0, b1, b2, b3];
        proof {
            assert(r@ =~= utf8_of(c));
        }
        r
    }
}

/// Encodes a control-modified character.
fn encode_ctrl_char(c: char) -> (r: Vec<u8>)
    ensures
        r@ == ctrl_bytes(c),
{
    let u = c as u32;
    let up: u32 = if 97 <= u && u <= 122 {
        u - 32
    } else {
        u
    };
    proof {
        assert(up == ascii_upper(c as u32));
    }
    if up == 50 || up == 64 || up == 32 {
        let r: Vec<u8> = vec![0u8];
        proof {
            assert(r@ =~= ctrl_bytes(c));
        }
        r
    } else if up == 51 || up == 91 {
        let r: Vec<u8> = vec![27u8];
        proof {
            assert(r@ =~= ctrl_bytes(c));
        }
        r
    } else if up == 52 || up == 92 {
        let r: Vec<u8> = vec![28u8];
        proof {
            assert(r@ =~= ctrl_bytes(c));
        }
        r
    } else if up == 53 || up == 93 {
        let r: Vec<u8> = vec![29u8];
        proof {
            assert(r@ =~= ctrl_bytes(c));
        }
        r
    } else if up == 54 || up == 94 {
        let r: Vec<u8> = vec![30u8];
        proof {
            assert(r@ =~= ctrl_bytes(c));
        }
        r
    } else if up == 55 || up == 45 || up == 95 {
        let r: Vec<u8> = vec![31u8];
        proof {
            assert(r@ =~= ctrl_bytes(c));
        }
        r
    } else if 65 <= up && up <= 95 {
        let b: u8 = (up - 64) as u8;
        let r: Vec<u8> = vec![b];
        proof {
            assert(r@ =~= ctrl_bytes(c));
        }
        r
    } else {
        encode_utf8_char(c)
    }
}

/// Encodes one key press as the bytes to hand to the child, or nothing for
/// an unrecognized key. The result depends on the key press alone.
pub fn encode_key(k: &KeyPress) -> (r: Option<Vec<u8>>)
    ensures
        match r {
            Some(v) => key_bytes(*k) is Some && v@ == key_bytes(*k)->0,
            None => key_bytes(*k) is None,
        },
{
    match k.code {
        KeyCode::Char(c) => {
            if k.ctrl {
                Some(encode_ctrl_char(c))
            } else {
                Some(encode_utf8_char(c))
            }
        },
        KeyCode::Enter => Some(seq_bytes1(10)),
        KeyCode::Backspace => Some(seq_bytes1(8)),
        KeyCode::Left => Some(seq_bytes3(27, 91, 68)),
        KeyCode::Right => Some(seq_bytes3(27, 91, 67)),
        KeyCode::Up => Some(seq_bytes3(27, 91, 65)),
        KeyCode::Down => Some(seq_bytes3(27, 91, 66)),
        KeyCode::Tab => Some(seq_bytes1(9)),
        KeyCode::Home => Some(seq_bytes3(27, 91, 72)),
        KeyCode::End => Some(seq_bytes3(27, 91, 70)),
        KeyCode::PageUp => Some(seq_bytes4(27, 91, 53, 126)),
        KeyCode::PageDown => Some(seq_bytes4(27, 91, 54, 126)),
        KeyCode::BackTab => Some(seq_bytes3(27, 91, 90)),
        KeyCode::Delete => Some(seq_bytes4(27, 91, 51, 126)),
        KeyCode::Insert => Some(seq_bytes4(27, 91, 50, 126)),
        KeyCode::Esc => Some(seq_bytes1(27)),
        KeyCode::Other => None,
    }
}

/// A one-byte vector.
fn seq_bytes1(a: u8) -> (r: Vec<u8>)
    ensures
        r@ == seq![a],
{
    let r: Vec<u8> = vec![a];
    proof {
        assert(r@ =~= seq![a]);
    }
    r
}

/// A three-byte vector.
fn seq_bytes3(a: u8, b: u8, c: u8) -> (r: Vec<u8>)
    ensures
        r@ == seq![a, b, c],
{
    let r: Vec<u8> = vec![a, b, c];
    proof {
        assert(r@ =~= seq![a, b, c]);
    }
    r
}

/// A four-byte vector.
fn seq_bytes4(a: u8, b: u8, c: u8, d: u8) -> (r: Vec<u8>)
    ensures
        r@ == seq![a, b, c, d],
{
    let r: Vec<u8> = vec![a, b, c, d];
    proof {
        assert(r@ =~= seq![a, b, c, d]);
    }
    r
}

/// The encoder is a pure function: the bytes for a key press are fixed by
/// the key press alone, independent of any session state.
pub proof fn lemma_encoder_deterministic(a: KeyPress, b: KeyPress)
    requires
        a == b,
    ensures
        key_bytes(a) == key_bytes(b),
{
}

} // verus!
