use vim_input::key::{SpecialKey, VimKey};
use vim_input::sequence::{chars_to_string, SequenceBuffer};

fn ch(c: char) -> VimKey {
    VimKey::alphanumeric_key(c)
}

fn esc() -> VimKey {
    VimKey::special_key(SpecialKey::Esc)
}

#[test]
fn alphanumeric_tokens_concatenate_in_order() {
    let mut buf = SequenceBuffer::new();
    buf.apply_all(&[ch('d'), ch('i'), ch('w'), ch('2')]);
    assert_eq!(buf.to_string(), "diw2");
    assert_eq!(buf.buffer_len(), 4);
}

#[test]
fn escape_resets_whatever_came_before() {
    let mut buf = SequenceBuffer::new();
    buf.apply_all(&[ch('a'), ch('b'), ch('c')]);
    assert_eq!(buf.apply(&esc()), Some(String::new()));
    assert_eq!(buf.to_string(), "");
    assert_eq!(buf.apply(&esc()), Some(String::new()));
    assert_eq!(buf.to_string(), "");
    assert_eq!(buf.buffer_len(), 0);
}

#[test]
fn interleaving_yields_every_snapshot_in_order() {
    let mut buf = SequenceBuffer::new();
    let snaps = buf.apply_all(&[ch('a'), ch('b'), esc(), ch('c')]);
    assert_eq!(snaps, vec!["a".to_string(), "ab".to_string(), String::new(), "c".to_string()]);
    assert_eq!(buf.to_string(), "c");
}

#[test]
fn interleaving_one_token_at_a_time() {
    let mut buf = SequenceBuffer::new();
    assert_eq!(buf.apply(&ch('a')), Some("a".to_string()));
    assert_eq!(buf.apply(&ch('b')), Some("ab".to_string()));
    assert_eq!(buf.apply(&esc()), Some(String::new()));
    assert_eq!(buf.apply(&ch('c')), Some("c".to_string()));
}

#[test]
fn tab_and_backspace_change_nothing() {
    let mut buf = SequenceBuffer::new();
    buf.apply(&ch('x'));
    assert_eq!(buf.apply(&VimKey::special_key(SpecialKey::Tab)), None);
    assert_eq!(buf.handle_special_key(SpecialKey::Backspace), None);
    assert_eq!(buf.to_string(), "x");
}

#[test]
fn token_without_content_changes_nothing() {
    let mut buf = SequenceBuffer::new();
    buf.apply(&ch('x'));
    assert_eq!(buf.apply(&VimKey { alphanumeric: None, special: None }), None);
    assert_eq!(buf.to_string(), "x");
}

#[test]
fn clear_empties_the_buffer() {
    let mut buf = SequenceBuffer::new();
    buf.apply_all(&[ch('a'), ch('b')]);
    buf.buffer_clear();
    assert_eq!(buf.buffer_len(), 0);
    assert_eq!(buf.to_string(), "");
}

#[test]
fn new_buffer_is_empty() {
    let buf = SequenceBuffer::new();
    assert_eq!(buf.buffer_len(), 0);
    assert_eq!(buf.to_string(), "");
}

#[test]
fn chars_become_a_string() {
    assert_eq!(chars_to_string(&['h', 'j', 'k', 'l']), "hjkl");
    assert_eq!(chars_to_string(&[]), "");
}
