//! Encoding of keyboard events as the byte sequences that a remote
//! terminal expects (VT100/xterm conventions).
use vstd::prelude::*;
use vstd::utf8::{decode_utf8, encode_scalar, encode_utf8};

verus! {

/// Modifier bit for the Shift key.
pub const MOD_SHIFT: u8 = 0b0000_0001;

/// Modifier bit for the Control key.
pub const MOD_CONTROL: u8 = 0b0000_0010;

/// Modifier bit for the Alt key.
pub const MOD_ALT: u8 = 0b0000_0100;

/// The key that was pressed, as far as the terminal encoding cares.
#[derive(Clone, Copy, Debug, PartialEq, Eq, Structural)]
pub enum KeyCode {
    Char(char),
    Enter,
    Backspace,
    Tab,
    Esc,
    Up,
    Down,
    Right,
    Left,
    Home,
    End,
    PageUp,
    PageDown,
    Delete,
    Insert,
    /// A function key `F(n)`.
    F(u8),
    /// Any other key (media keys, lock keys, bare modifiers, ...).
    Other,
}

/// The set of held modifier keys, as a bit set over `MOD_*`.
#[derive(Clone, Copy, Debug, PartialEq, Eq, Structural)]
pub struct KeyModifiers {
    pub bits: u8,
}

/// Whether a key event is a press, an auto-repeat or a release.
#[derive(Clone, Copy, Debug, PartialEq, Eq, Structural)]
pub enum KeyEventKind {
    Press,
    Repeat,
    Release,
}

/// A keyboard event.
#[derive(Clone, Copy, Debug, PartialEq, Eq, Structural)]
pub struct KeyEvent {
    pub code: KeyCode,
    pub modifiers: KeyModifiers,
    pub kind: KeyEventKind,
}

/// An input event read from the local console.
#[derive(Clone, Copy, Debug, PartialEq, Eq, Structural)]
pub enum InputEvent {
    Key(KeyEvent),
    /// Mouse, focus, paste or resize events: not forwarded.
    Other,
}

impl KeyModifiers {
    /// The modifier set is a superset of `flags`.
    pub open spec fn has(self, flags: u8) -> bool {
        self.bits & flags == flags
    }

    /// True when every bit of `flags` is set.
    pub fn contains(&self, flags: u8) -> (r: bool)
        ensures
            r == self.has(flags),
    {
        self.bits & flags == flags
    }
}

/// ASCII lower-casing of a character; other characters are unchanged.
pub open spec fn ascii_lower(c: char) -> char {
    if 'A' <= c <= 'Z' {
        ((c as u32) + 32) as char
    } else {
        c
    }
}

/// The low eight bits of a character's scalar value (Rust's `c as u8`).
pub open spec fn low_byte(c: char) -> u8 {
    ((c as u32) % 256) as u8
}

/// The byte sent for Ctrl held together with character `c`.
pub open spec fn ctrl_char_byte(c: char) -> u8 {
    let l = ascii_lower(c);
    if 'a' <= l <= 'z' {
        ((l as u32) - ('a' as u32) + 1) as u8
    } else if l == '[' {
        0x1b
    } else if l == ']' {
        0x1d
    } else if l == '\\' {
        0x1c
    } else if l == '^' {
        0x1e
    } else {
        low_byte(c)
    }
}

/// The UTF-8 encoding of a single character.
pub open spec fn char_utf8(c: char) -> Seq<u8> {
    encode_scalar(c as u32)
}

/// The escape sequence of function key `F(n)`; empty for keys beyond F12.
pub open spec fn function_key_bytes(n: u8) -> Seq<u8> {
    if n == 1 {
        seq![0x1b, 0x4f, 0x50]
    } else if n == 2 {
        seq![0x1b, 0x4f, 0x51]
    } else if n == 3 {
        seq![0x1b, 0x4f, 0x52]
    } else if n == 4 {
        seq![0x1b, 0x4f, 0x53]
    } else if n == 5 {
        seq![0x1b, 0x5b, 0x31, 0x35, 0x7e]
    } else if n == 6 {
        seq![0x1b, 0x5b, 0x31, 0x37, 0x7e]
    } else if n == 7 {
        seq![0x1b, 0x5b, 0x31, 0x38, 0x7e]
    } else if n == 8 {
        seq![0x1b, 0x5b, 0x31, 0x39, 0x7e]
    } else if n == 9 {
        seq![0x1b, 0x5b, 0x32, 0x30, 0x7e]
    } else if n == 10 {
        seq![0x1b, 0x5b, 0x32, 0x31, 0x7e]
    } else if n == 11 {
        seq![0x1b, 0x5b, 0x32, 0x33, 0x7e]
    } else if n == 12 {
        seq![0x1b, 0x5b, 0x32, 0x34, 0x7e]
    } else {
        seq![]
    }
}

/// The bytes a remote terminal receives for a key with the given modifiers.
pub open spec fn key_bytes(code: KeyCode, modifiers: KeyModifiers) -> Seq<u8> {
    match code {
        KeyCode::Char(c) => {
            if modifiers.has(MOD_CONTROL) {
                seq![ctrl_char_byte(c)]
            } else if modifiers.has(MOD_ALT) {
                seq![0x1bu8] + char_utf8(c)
            } else {
                char_utf8(c)
            }
        },
        KeyCode::Enter => seq![0x0d],
        KeyCode::Backspace => seq![0x7f],
        KeyCode::Tab => seq![0x09],
        KeyCode::Esc => seq![0x1b],
        KeyCode::Up => seq![0x1b, 0x5b, 0x41],
        KeyCode::Down => seq![0x1b, 0x5b, 0x42],
        KeyCode::Right => seq![0x1b, 0x5b, 0x43],
        KeyCode::Left => seq![0x1b, 0x5b, 0x44],
        KeyCode::Home => seq![0x1b, 0x5b, 0x48],
        KeyCode::End => seq![0x1b, 0x5b, 0x46],
        KeyCode::PageUp => seq![0x1b, 0x5b, 0x35, 0x7e],
        KeyCode::PageDown => seq![0x1b, 0x5b, 0x36, 0x7e],
        KeyCode::Delete => seq![0x1b, 0x5b, 0x33, 0x7e],
        KeyCode::Insert => seq![0x1b, 0x5b, 0x32, 0x7e],
        KeyCode::F(n) => function_key_bytes(n),
        KeyCode::Other => seq![],
    }
}

/// What a console input event forwards to the remote terminal: the bytes of a
/// key press or repeat, and nothing for releases and non-key events.
pub open spec fn input_bytes(event: InputEvent) -> Option<Seq<u8>> {
    match event {
        InputEvent::Key(k) => if k.kind != KeyEventKind::Release {
            Some(key_bytes(k.code, k.modifiers))
        } else {
            None
        },
        InputEvent::Other => None,
    }
}

/// ASCII lower-casing of a character.
pub fn to_ascii_lowercase(c: char) -> (r: char)
    ensures
        r == ascii_lower(c),
{
    if 'A' <= c && c <= 'Z' {
        let v: u32 = (c as u32) + 32;
        assert(0x61 <= v <= 0x7a);
        char_from_ascii(v)
    } else {
        c
    }
}

/// The character whose scalar value is the given ASCII code.
fn char_from_ascii(v: u32) -> (r: char)
    requires
        v < 0x80,
    ensures
        r == v as char,
{
    let b: u8 = v as u8;
    b as char
}

/// UTF-8 encoding of one character.
pub fn encode_char_utf8(c: char) -> (r: Vec<u8>)
    ensures
        r@ == char_utf8(c),
        1 <= r@.len() <= 4,
{
    let v: u32 = c as u32;
    proof {
        vstd::utf8::char_is_scalar(c);
    }
    let mut r: Vec<u8> = Vec::new();
    if v <= 0x7F {
        r.push((v & 0x7F) as u8);
    } else if v <= 0x7FF {
        r.push(0xC0 | ((v >> 6) & 0x1F) as u8);
        r.push(0x80 | (v & 0x3F) as u8);
    } else if v <= 0xFFFF {
        r.push(0xE0 | ((v >> 12) & 0x0F) as u8);
        r.push(0x80 | ((v >> 6) & 0x3F) as u8);
        r.push(0x80 | (v & 0x3F) as u8);
    } else {
        r.push(0xF0 | ((v >> 18) & 0x7) as u8);
        r.push(0x80 | ((v >> 12) & 0x3F) as u8);
        r.push(0x80 | ((v >> 6) & 0x3F) as u8);
        r.push(0x80 | (v & 0x3F) as u8);
    }
    assert(r@ =~= encode_scalar(v));
    r
}

/// The byte sent for Ctrl together with character `c`.
fn ctrl_byte(c: char) -> (r: u8)
    ensures
        r == ctrl_char_byte(c),
{
    let c_lower = to_ascii_lowercase(c);
    if 'a' <= c_lower && c_lower <= 'z' {
        ((c_lower as u32) - ('a' as u32) + 1) as u8
    } else if c_lower == '[' {
        0x1b
    } else if c_lower == ']' {
        0x1d
    } else if c_lower == '\\' {
        0x1c
    } else if c_lower == '^' {
        0x1e
    } else {
        ((c as u32) % 256) as u8
    }
}

/// Encodes a key press as the bytes a remote terminal expects: control
/// characters for Ctrl combinations, an ESC prefix for Alt, the UTF-8 encoding
/// for plain characters and escape sequences for special keys.
pub fn key_event_to_bytes(code: KeyCode, modifiers: KeyModifiers) -> (r: Vec<u8>)
    ensures
        r@ == key_bytes(code, modifiers),
{
    let ctrl = modifiers.contains(MOD_CONTROL);
    let alt = modifiers.contains(MOD_ALT);
    match code {
        KeyCode::Char(c) => {
            if ctrl {
                vec![ctrl_byte(c)]
            } else if alt {
                let mut v: Vec<u8> = vec![0x1b];
                let mut s = encode_char_utf8(c);
                v.append(&mut s);
                v
            } else {
                encode_char_utf8(c)
            }
        },
        KeyCode::Enter => vec![0x0d],
        KeyCode::Backspace => vec![0x7f],
        KeyCode::Tab => vec![0x09],
        KeyCode::Esc => vec![0x1b],
        KeyCode::Up => vec![0x1b, 0x5b, 0x41],
        KeyCode::Down => vec![0x1b, 0x5b, 0x42],
        KeyCode::Right => vec![0x1b, 0x5b, 0x43],
        KeyCode::Left => vec![0x1b, 0x5b, 0x44],
        KeyCode::Home => vec![0x1b, 0x5b, 0x48],
        KeyCode::End => vec![0x1b, 0x5b, 0x46],
        KeyCode::PageUp => vec![0x1b, 0x5b, 0x35, 0x7e],
        KeyCode::PageDown => vec![0x1b, 0x5b, 0x36, 0x7e],
        KeyCode::Delete => vec![0x1b, 0x5b, 0x33, 0x7e],
        KeyCode::Insert => vec![0x1b, 0x5b, 0x32, 0x7e],
        KeyCode::F(n) => function_key_to_bytes(n),
        KeyCode::Other => Vec::new(),
    }
}

/// The escape sequence of function key `F(n)`.
fn function_key_to_bytes(n: u8) -> (r: Vec<u8>)
    ensures
        r@ == function_key_bytes(n),
{
    if n == 1 {
        vec![0x1b, 0x4f, 0x50]
    } else if n == 2 {
        vec![0x1b, 0x4f, 0x51]
    } else if n == 3 {
        vec![0x1b, 0x4f, 0x52]
    } else if n == 4 {
        vec![0x1b, 0x4f, 0x53]
    } else if n == 5 {
        vec![0x1b, 0x5b, 0x31, 0x35, 0x7e]
    } else if n == 6 {
        vec![0x1b, 0x5b, 0x31, 0x37, 0x7e]
    } else if n == 7 {
        vec![0x1b, 0x5b, 0x31, 0x38, 0x7e]
    } else if n == 8 {
        vec![0x1b, 0x5b, 0x31, 0x39, 0x7e]
    } else if n == 9 {
        vec![0x1b, 0x5b, 0x32, 0x30, 0x7e]
    } else if n == 10 {
        vec![0x1b, 0x5b, 0x32, 0x31, 0x7e]
    } else if n == 11 {
        vec![0x1b, 0x5b, 0x32, 0x33, 0x7e]
    } else if n == 12 {
        vec![0x1b, 0x5b, 0x32, 0x34, 0x7e]
    } else {
        Vec::new()
    }
}

/// The bytes that a console input event forwards: the encoding of a key
/// press or repeat; `None` for key releases and for non-key events.
pub fn key_event_input(event: &InputEvent) -> (r: Option<Vec<u8>>)
    ensures
        match r {
            Some(v) => input_bytes(*event) == Some(v@),
            None => input_bytes(*event) is None,
        },
{
    match event {
        InputEvent::Key(k) => {
            if k.kind != KeyEventKind::Release {
                Some(key_event_to_bytes(k.code, k.modifiers))
            } else {
                None
            }
        },
        InputEvent::Other => None,
    }
}

// ---------------------------------------------------------------------------
// Laws of the key encoding
// ---------------------------------------------------------------------------

/// A plain character (neither Ctrl nor Alt held) is sent as its UTF-8
/// encoding, which is valid UTF-8 and decodes back to exactly that character.
pub proof fn lemma_plain_char_round_trips(c: char, modifiers: KeyModifiers)
    requires
        !modifiers.has(MOD_CONTROL),
        !modifiers.has(MOD_ALT),
    ensures
        key_bytes(KeyCode::Char(c), modifiers) == encode_utf8(seq![c]),
        decode_utf8(key_bytes(KeyCode::Char(c), modifiers)) == seq![c],
        1 <= key_bytes(KeyCode::Char(c), modifiers).len() <= 4,
{
    let s = seq![c];
    assert(s.drop_first() =~= Seq::<char>::empty());
    assert(encode_utf8(s.drop_first()) =~= Seq::<u8>::empty());
    assert(encode_utf8(s) =~= encode_scalar(c as u32));
    vstd::utf8::encode_utf8_decode_utf8(s);
}

/// With Alt (and not Ctrl) held, a character is sent as ESC followed by the
/// bytes the character alone would produce.
pub proof fn lemma_alt_prefixes_escape(c: char, modifiers: KeyModifiers)
    requires
        modifiers.has(MOD_ALT),
        !modifiers.has(MOD_CONTROL),
    ensures
        key_bytes(KeyCode::Char(c), modifiers) == seq![0x1bu8] + key_bytes(
            KeyCode::Char(c),
            KeyModifiers { bits: 0 },
        ),
{
    assert(0u8 & MOD_CONTROL == 0u8) by (bit_vector);
    assert(0u8 & MOD_ALT == 0u8) by (bit_vector);
}

/// With Ctrl held, an ASCII letter of either case is sent as the single control
/// byte given by its position in the alphabet (Ctrl+A = 1, ..., Ctrl+Z = 26).
pub proof fn lemma_ctrl_letter(c: char, modifiers: KeyModifiers)
    requires
        modifiers.has(MOD_CONTROL),
        ('a' <= c <= 'z') || ('A' <= c <= 'Z'),
    ensures
        key_bytes(KeyCode::Char(c), modifiers).len() == 1,
        1 <= key_bytes(KeyCode::Char(c), modifiers)[0] <= 26,
        key_bytes(KeyCode::Char(c), modifiers)[0] == (ascii_lower(c) as u32) - ('a' as u32) + 1,
{
}

/// Ctrl with a letter ignores the letter's case.
pub proof fn lemma_ctrl_ignores_case(c: char, modifiers: KeyModifiers)
    requires
        modifiers.has(MOD_CONTROL),
        'a' <= c <= 'z',
    ensures
        key_bytes(KeyCode::Char(c), modifiers) == key_bytes(
            KeyCode::Char(((c as u32) - 32) as char),
            modifiers,
        ),
{
    let u = ((c as u32) - 32) as char;
    assert(ascii_lower(u) == c);
}

/// Every key this encoding knows produces at least one byte: characters,
/// the named special keys and F1 to F12.
pub proof fn lemma_known_keys_nonempty(code: KeyCode, modifiers: KeyModifiers)
    requires
        code != KeyCode::Other,
        code matches KeyCode::F(n) ==> 1 <= n <= 12,
    ensures
        key_bytes(code, modifiers).len() > 0,
{
    if let KeyCode::Char(c) = code {
        vstd::utf8::char_is_scalar(c);
    }
}

/// A key release never sends anything; a press and a repeat of the same key
/// send the same bytes.
pub proof fn lemma_release_sends_nothing(code: KeyCode, modifiers: KeyModifiers)
    ensures
        input_bytes(
            InputEvent::Key(KeyEvent { code, modifiers, kind: KeyEventKind::Release }),
        ) is None,
        input_bytes(InputEvent::Key(KeyEvent { code, modifiers, kind: KeyEventKind::Press }))
            == input_bytes(
            InputEvent::Key(KeyEvent { code, modifiers, kind: KeyEventKind::Repeat }),
        ),
{
}

/// With Ctrl held, a character that is not an ASCII letter (of either case)
/// and not one of `[`, `]`, `\`, `^` is sent unchanged as the single byte of
/// its low eight bits; the four bracket and caret characters give ESC (0x1b),
/// GS (0x1d), FS (0x1c) and RS (0x1e).
pub proof fn lemma_ctrl_other_chars(c: char, modifiers: KeyModifiers)
    requires
        modifiers.has(MOD_CONTROL),
        !('a' <= c <= 'z'),
        !('A' <= c <= 'Z'),
    ensures
        c != '[' && c != ']' && c != '\\' && c != '^' ==> key_bytes(KeyCode::Char(c), modifiers)
            == seq![((c as u32) % 256) as u8],
        c == '[' ==> key_bytes(KeyCode::Char(c), modifiers) == seq![0x1bu8],
        c == ']' ==> key_bytes(KeyCode::Char(c), modifiers) == seq![0x1du8],
        c == '\\' ==> key_bytes(KeyCode::Char(c), modifiers) == seq![0x1cu8],
        c == '^' ==> key_bytes(KeyCode::Char(c), modifiers) == seq![0x1eu8],
{
}

} // verus!
