use vim_input::key::{is_ctrl_c, KeyCode, KeyEvent, SpecialKey, VimKey};

#[test]
fn char_code_becomes_alphanumeric_token() {
    let k = VimKey::try_from(KeyCode::Char('x')).unwrap();
    assert_eq!(k.alphanumeric, Some('x'));
    assert_eq!(k.special, None);
}

#[test]
fn named_codes_become_special_tokens() {
    assert_eq!(VimKey::try_from(KeyCode::Esc).unwrap().special, Some(SpecialKey::Esc));
    assert_eq!(VimKey::try_from(KeyCode::Tab).unwrap().special, Some(SpecialKey::Tab));
    assert_eq!(
        VimKey::try_from(KeyCode::Backspace).unwrap().special,
        Some(SpecialKey::Backspace)
    );
    assert_eq!(VimKey::try_from(KeyCode::Esc).unwrap().alphanumeric, None);
}

#[test]
fn other_codes_are_refused() {
    assert!(VimKey::try_from(KeyCode::Other).is_err());
}

#[test]
fn constructors_build_one_kind() {
    assert_eq!(
        VimKey::alphanumeric_key('7'),
        VimKey { alphanumeric: Some('7'), special: None }
    );
    assert_eq!(
        VimKey::special_key(SpecialKey::Tab),
        VimKey { alphanumeric: None, special: Some(SpecialKey::Tab) }
    );
}

#[test]
fn ctrl_c_is_the_interrupt() {
    assert!(is_ctrl_c(KeyEvent { code: KeyCode::Char('c'), control: true }));
    assert!(!is_ctrl_c(KeyEvent { code: KeyCode::Char('c'), control: false }));
    assert!(!is_ctrl_c(KeyEvent { code: KeyCode::Char('d'), control: true }));
    assert!(!is_ctrl_c(KeyEvent { code: KeyCode::Esc, control: true }));
}
