use rustshell::keys::{
    key_event_input, key_event_to_bytes, to_ascii_lowercase, encode_char_utf8, InputEvent, KeyCode,
    KeyEvent, KeyEventKind, KeyModifiers, MOD_ALT, MOD_CONTROL, MOD_SHIFT,
};

fn mods(bits: u8) -> KeyModifiers {
    KeyModifiers { bits }
}

#[test]
fn ctrl_c_and_ctrl_d_are_interrupt_and_eof() {
    assert_eq!(key_event_to_bytes(KeyCode::Char('c'), mods(MOD_CONTROL)), vec![3]);
    assert_eq!(key_event_to_bytes(KeyCode::Char('d'), mods(MOD_CONTROL)), vec![4]);
    assert_eq!(key_event_to_bytes(KeyCode::Char('C'), mods(MOD_CONTROL | MOD_SHIFT)), vec![3]);
}

#[test]
fn ctrl_letters_map_to_alphabet_position() {
    assert_eq!(key_event_to_bytes(KeyCode::Char('a'), mods(MOD_CONTROL)), vec![1]);
    assert_eq!(key_event_to_bytes(KeyCode::Char('z'), mods(MOD_CONTROL)), vec![26]);
    assert_eq!(key_event_to_bytes(KeyCode::Char('Z'), mods(MOD_CONTROL)), vec![26]);
}

#[test]
fn ctrl_punctuation() {
    assert_eq!(key_event_to_bytes(KeyCode::Char('['), mods(MOD_CONTROL)), vec![0x1b]);
    assert_eq!(key_event_to_bytes(KeyCode::Char(']'), mods(MOD_CONTROL)), vec![0x1d]);
    assert_eq!(key_event_to_bytes(KeyCode::Char('\\'), mods(MOD_CONTROL)), vec![0x1c]);
    assert_eq!(key_event_to_bytes(KeyCode::Char('^'), mods(MOD_CONTROL)), vec![0x1e]);
    // Anything else: the low byte of the character.
    assert_eq!(key_event_to_bytes(KeyCode::Char('1'), mods(MOD_CONTROL)), vec![b'1']);
    assert_eq!(key_event_to_bytes(KeyCode::Char('中'), mods(MOD_CONTROL)), vec![0x2d]);
}

#[test]
fn ctrl_takes_precedence_over_alt() {
    assert_eq!(key_event_to_bytes(KeyCode::Char('a'), mods(MOD_CONTROL | MOD_ALT)), vec![1]);
}

#[test]
fn alt_prefixes_escape() {
    assert_eq!(key_event_to_bytes(KeyCode::Char('x'), mods(MOD_ALT)), vec![0x1b, b'x']);
    assert_eq!(key_event_to_bytes(KeyCode::Char('é'), mods(MOD_ALT)), vec![0x1b, 195, 169]);
}

#[test]
fn plain_characters_are_utf8() {
    assert_eq!(key_event_to_bytes(KeyCode::Char('a'), mods(0)), vec![b'a']);
    assert_eq!(key_event_to_bytes(KeyCode::Char('A'), mods(MOD_SHIFT)), vec![b'A']);
    assert_eq!(key_event_to_bytes(KeyCode::Char('é'), mods(0)), vec![195, 169]);
    assert_eq!(key_event_to_bytes(KeyCode::Char('中'), mods(0)), vec![228, 184, 173]);
    assert_eq!(key_event_to_bytes(KeyCode::Char('😀'), mods(0)), vec![240, 159, 152, 128]);
}

#[test]
fn utf8_encoding_matches_std() {
    for c in ['\0', 'a', '\u{7f}', '\u{80}', 'ß', '\u{7ff}', '\u{800}', '€', '\u{ffff}', '\u{10000}', '\u{10ffff}'] {
        let mut buf = [0u8; 4];
        assert_eq!(encode_char_utf8(c), c.encode_utf8(&mut buf).as_bytes().to_vec());
    }
}

#[test]
fn special_keys() {
    let m = mods(0);
    assert_eq!(key_event_to_bytes(KeyCode::Enter, m), vec![b'\r']);
    assert_eq!(key_event_to_bytes(KeyCode::Backspace, m), vec![0x7f]);
    assert_eq!(key_event_to_bytes(KeyCode::Tab, m), vec![b'\t']);
    assert_eq!(key_event_to_bytes(KeyCode::Esc, m), vec![0x1b]);
    assert_eq!(key_event_to_bytes(KeyCode::Up, m), b"\x1b[A".to_vec());
    assert_eq!(key_event_to_bytes(KeyCode::Down, m), b"\x1b[B".to_vec());
    assert_eq!(key_event_to_bytes(KeyCode::Right, m), b"\x1b[C".to_vec());
    assert_eq!(key_event_to_bytes(KeyCode::Left, m), b"\x1b[D".to_vec());
    assert_eq!(key_event_to_bytes(KeyCode::Home, m), b"\x1b[H".to_vec());
    assert_eq!(key_event_to_bytes(KeyCode::End, m), b"\x1b[F".to_vec());
    assert_eq!(key_event_to_bytes(KeyCode::PageUp, m), b"\x1b[5~".to_vec());
    assert_eq!(key_event_to_bytes(KeyCode::PageDown, m), b"\x1b[6~".to_vec());
    assert_eq!(key_event_to_bytes(KeyCode::Delete, m), b"\x1b[3~".to_vec());
    assert_eq!(key_event_to_bytes(KeyCode::Insert, m), b"\x1b[2~".to_vec());
    assert_eq!(key_event_to_bytes(KeyCode::Other, m), Vec::<u8>::new());
}

#[test]
fn function_keys() {
    let m = mods(0);
    let expected: [&[u8]; 12] = [
        b"\x1bOP", b"\x1bOQ", b"\x1bOR", b"\x1bOS", b"\x1b[15~", b"\x1b[17~", b"\x1b[18~",
        b"\x1b[19~", b"\x1b[20~", b"\x1b[21~", b"\x1b[23~", b"\x1b[24~",
    ];
    for (i, e) in expected.iter().enumerate() {
        assert_eq!(key_event_to_bytes(KeyCode::F(i as u8 + 1), m), e.to_vec());
    }
    assert_eq!(key_event_to_bytes(KeyCode::F(0), m), Vec::<u8>::new());
    assert_eq!(key_event_to_bytes(KeyCode::F(13), m), Vec::<u8>::new());
}

#[test]
fn key_releases_are_not_forwarded() {
    let press = KeyEvent { code: KeyCode::Char('q'), modifiers: mods(0), kind: KeyEventKind::Press };
    let repeat = KeyEvent { kind: KeyEventKind::Repeat, ..press };
    let release = KeyEvent { kind: KeyEventKind::Release, ..press };
    assert_eq!(key_event_input(&InputEvent::Key(press)), Some(vec![b'q']));
    assert_eq!(key_event_input(&InputEvent::Key(repeat)), Some(vec![b'q']));
    assert_eq!(key_event_input(&InputEvent::Key(release)), None);
    assert_eq!(key_event_input(&InputEvent::Other), None);
}

#[test]
fn ascii_lowercase() {
    assert_eq!(to_ascii_lowercase('Q'), 'q');
    assert_eq!(to_ascii_lowercase('q'), 'q');
    assert_eq!(to_ascii_lowercase('É'), 'É');
    assert_eq!(to_ascii_lowercase('['), '[');
}
