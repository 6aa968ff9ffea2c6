//! The sequence buffer: the pending key sequence and the state machine that
//! updates it from key tokens.
use vstd::prelude::*;

use crate::key::{SpecialKey, VimKey};

verus! {

/// The buffer after one token: a special key is handled first (escape clears
/// the buffer, the other special keys leave it as it is), otherwise a
/// character is appended.
pub open spec fn step(buf: Seq<char>, key: VimKey) -> Seq<char> {
    match key.special {
        Some(SpecialKey::Esc) => Seq::empty(),
        Some(_) => buf,
        None => match key.alphanumeric {
            Some(c) => buf.push(c),
            None => buf,
        },
    }
}

/// Whether handling `key` emits a snapshot of the buffer: every appended
/// character and every escape does; the other special keys do not.
pub open spec fn emits(key: VimKey) -> bool {
    match key.special {
        Some(SpecialKey::Esc) => true,
        Some(_) => false,
        None => key.alphanumeric is Some,
    }
}

/// The buffer after the tokens `keys`, taken in order, starting from `buf`.
pub open spec fn run(buf: Seq<char>, keys: Seq<VimKey>) -> Seq<char>
    decreases keys.len(),
{
    if keys.len() == 0 {
        buf
    } else {
        step(run(buf, keys.drop_last()), keys.last())
    }
}

/// The characters that a sequence of alphanumeric tokens carries, in order.
pub open spec fn chars_of(keys: Seq<VimKey>) -> Seq<char> {
    keys.map_values(|k: VimKey| k.alphanumeric->Some_0)
}

/// The snapshots emitted while the tokens `keys` are handled in order,
/// starting from `buf`: one per emitting token, each the buffer right after it.
pub open spec fn snapshots(buf: Seq<char>, keys: Seq<VimKey>) -> Seq<Seq<char>>
    decreases keys.len(),
{
    if keys.len() == 0 {
        Seq::empty()
    } else if emits(keys.last()) {
        snapshots(buf, keys.drop_last()).push(run(buf, keys))
    } else {
        snapshots(buf, keys.drop_last())
    }
}

/// Tokens that carry a character and no special key, delivered with nothing
/// in between, append their characters to the buffer in delivery order.
pub proof fn lemma_alphanumeric_tokens_append(buf: Seq<char>, keys: Seq<VimKey>)
    requires
        forall|i: int|
            0 <= i < keys.len() ==> (#[trigger] keys[i]).special is None
                && keys[i].alphanumeric is Some,
    ensures
        run(buf, keys) == buf + chars_of(keys),
    decreases keys.len(),
{
    if keys.len() > 0 {
        let rest = keys.drop_last();
        assert forall|i: int| 0 <= i < rest.len() implies (#[trigger] rest[i]).special is None
            && rest[i].alphanumeric is Some by {
            assert(rest[i] == keys[i]);
        }
        lemma_alphanumeric_tokens_append(buf, rest);
        assert(keys[keys.len() - 1] == keys.last());
        assert(chars_of(keys) =~= chars_of(rest).push(keys.last().alphanumeric->Some_0));
        assert(run(buf, keys) =~= buf + chars_of(keys));
    }
}

/// From an empty buffer, tokens that carry a character and no special key
/// leave the buffer holding exactly the concatenation of their characters,
/// in delivery order.
pub proof fn lemma_alphanumeric_tokens_concatenate(keys: Seq<VimKey>)
    requires
        forall|i: int|
            0 <= i < keys.len() ==> (#[trigger] keys[i]).special is None
                && keys[i].alphanumeric is Some,
    ensures
        run(Seq::empty(), keys) == chars_of(keys),
{
    lemma_alphanumeric_tokens_append(Seq::empty(), keys);
    assert(Seq::<char>::empty() + chars_of(keys) =~= chars_of(keys));
}

/// Escape empties the buffer whatever came before it, emits the empty
/// snapshot, and a second escape right after it leaves the buffer empty.
pub proof fn lemma_escape_resets(buf: Seq<char>, keys: Seq<VimKey>, esc: VimKey)
    requires
        esc.is_escape(),
    ensures
        run(buf, keys.push(esc)) == Seq::<char>::empty(),
        run(buf, keys.push(esc).push(esc)) == Seq::<char>::empty(),
        snapshots(buf, keys.push(esc)) == snapshots(buf, keys).push(Seq::<char>::empty()),
{
    assert(keys.push(esc).drop_last() =~= keys);
    assert(keys.push(esc).push(esc).drop_last() =~= keys.push(esc));
}

/// Relies on `String::push`: the character is appended at the end.
#[verifier::external_body]
fn push_char(s: &mut String, c: char)
    ensures
        final(s)@ == old(s)@.push(c),
{
    s.push(c)
}

/// The string made of `chars`, in order.
pub fn chars_to_string(chars: &[char]) -> (r: String)
    ensures
        r@ == chars@,
{
    let mut s = String::new();
    let mut i: usize = 0;
    while i < chars.len()
        invariant
            i <= chars@.len(),
            s@ == chars@.subrange(0, i as int),
        decreases chars@.len() - i,
    {
        push_char(&mut s, chars[i]);
        i = i + 1;
        assert(s@ =~= chars@.subrange(0, i as int));
    }
    assert(chars@.subrange(0, chars@.len() as int) =~= chars@);
    s
}

/// The pending key sequence.
pub struct SequenceBuffer {
    chars: Vec<char>,
}

impl View for SequenceBuffer {
    type V = Seq<char>;

    closed spec fn view(&self) -> Seq<char> {
        self.chars@
    }
}

impl SequenceBuffer {
    /// An empty buffer.
    pub fn new() -> (r: SequenceBuffer)
        ensures
            r@ == Seq::<char>::empty(),
    {
        SequenceBuffer { chars: Vec::new() }
    }

    /// Empties the buffer.
    pub fn buffer_clear(&mut self)
        ensures
            final(self)@ == Seq::<char>::empty(),
    {
        self.chars.clear();
    }

    /// The number of characters in the buffer.
    pub fn buffer_len(&self) -> (r: usize)
        ensures
            r == self@.len(),
    {
        self.chars.len()
    }

    /// A snapshot of the buffer as a string.
    pub fn to_string(&self) -> (r: String)
        ensures
            r@ == self@,
    {
        chars_to_string(self.chars.as_slice())
    }

    /// Handles a special key: escape clears the buffer and yields the (empty)
    /// snapshot; tab and backspace change nothing and yield none.
    pub fn handle_special_key(&mut self, key: SpecialKey) -> (snapshot: Option<String>)
        ensures
            final(self)@ == step(
                old(self)@,
                VimKey { alphanumeric: None, special: Some(key) },
            ),
            snapshot is Some <==> key == SpecialKey::Esc,
            snapshot is Some ==> snapshot->Some_0@ == final(self)@,
    {
        match key {
            SpecialKey::Esc => {
                self.buffer_clear();
                Some(String::new())
            },
            _ => None,
        }
    }

    /// Handles one token and yields the snapshot to publish, if the token
    /// emits one.
    pub fn apply(&mut self, key: &VimKey) -> (snapshot: Option<String>)
        ensures
            final(self)@ == step(old(self)@, *key),
            snapshot is Some <==> emits(*key),
            snapshot is Some ==> snapshot->Some_0@ == final(self)@,
    {
        match key.special {
            Some(special) => self.handle_special_key(special),
            None => match key.alphanumeric {
                Some(c) => {
                    self.chars.push(c);
                    Some(self.to_string())
                },
                None => None,
            },
        }
    }
}

impl SequenceBuffer {
    /// Handles the tokens `keys` in order and yields every snapshot emitted
    /// on the way, in order.
    pub fn apply_all(&mut self, keys: &[VimKey]) -> (r: Vec<String>)
        ensures
            final(self)@ == run(old(self)@, keys@),
            r@.map_values(|s: String| s@) == snapshots(old(self)@, keys@),
    {
        let ghost start = self@;
        let mut out: Vec<String> = Vec::new();
        let mut i: usize = 0;
        while i < keys.len()
            invariant
                i <= keys@.len(),
                self@ == run(start, keys@.subrange(0, i as int)),
                out@.map_values(|s: String| s@) == snapshots(start, keys@.subrange(0, i as int)),
            decreases keys@.len() - i,
        {
            let ghost before = out@;
            let snapshot = self.apply(&keys[i]);
            let ghost prefix = keys@.subrange(0, i + 1);
            assert(prefix.drop_last() =~= keys@.subrange(0, i as int));
            assert(prefix.last() == keys@[i as int]);
            match snapshot {
                Some(s) => {
                    out.push(s);
                    assert(out@.map_values(|s: String| s@) =~= before.map_values(
                        |s: String| s@,
                    ).push(self@));
                },
                None => {},
            }
            i = i + 1;
        }
        assert(keys@.subrange(0, keys@.len() as int) =~= keys@);
        out
    }
}

} // verus!
