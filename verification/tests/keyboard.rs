use pomelo_kernel::keyboard::{KeyCode, Modifiers, L_ALT, L_CONTROL, L_SHIFT, R_SHIFT};

fn key(mods: u8, code: u8) -> KeyCode {
    KeyCode(Modifiers::from_bits_truncate(mods), code)
}

#[test]
fn letters_follow_shift() {
    assert_eq!(key(0, 4).to_char(), Some('a'));
    assert_eq!(key(L_SHIFT, 4).to_char(), Some('A'));
    assert_eq!(key(R_SHIFT, 29).to_char(), Some('Z'));
    assert_eq!(key(0, 29).to_char(), Some('z'));
}

#[test]
fn digits_and_symbols() {
    assert_eq!(key(0, 30).to_char(), Some('1'));
    assert_eq!(key(L_SHIFT, 30).to_char(), Some('!'));
    assert_eq!(key(0, 39).to_char(), Some('0'));
    assert_eq!(key(L_SHIFT, 39).to_char(), Some(')'));
    assert_eq!(key(0, 40).to_char(), Some('\n'));
    assert_eq!(key(0, 44).to_char(), Some(' '));
    assert_eq!(key(0, 45).to_char(), Some('-'));
    assert_eq!(key(L_SHIFT, 45).to_char(), Some('_'));
}

#[test]
fn unmapped_codes_are_none() {
    assert_eq!(key(0, 0).to_char(), None);
    assert_eq!(key(0, 1).to_char(), None);
    assert_eq!(key(0, 102).to_char(), None);
    assert_eq!(key(0, 103).to_char(), Some('='));
    assert_eq!(key(0, 104).to_char(), None);
    assert_eq!(key(0, 255).to_char(), None);
}

#[test]
fn non_shift_modifiers_do_not_shift() {
    assert_eq!(key(L_CONTROL | L_ALT, 4).to_char(), Some('a'));
    assert_eq!(key(L_CONTROL | L_SHIFT, 4).to_char(), Some('A'));
}
