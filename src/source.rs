//! The decisions of the event source: what to do with each raw terminal event.
use vstd::prelude::*;

use crate::key::{classify, is_ctrl_c, is_interrupt, KeyCode, KeyEvent, VimKey};

verus! {

/// What the event source does after one raw event.
#[derive(Clone, Copy, Debug, PartialEq, Eq, Structural)]
pub enum SourceAction {
    /// Restore the terminal and end the process.
    Exit,
    /// Publish the token on the token channel.
    Publish(VimKey),
    /// Drop the event with no observable effect.
    Ignore,
}

/// The action for a raw event; `None` stands for an event that is not a key
/// press, or a failed read.
pub open spec fn source_action(ev: Option<KeyEvent>) -> SourceAction {
    match ev {
        None => SourceAction::Ignore,
        Some(k) => if is_interrupt(k) {
            SourceAction::Exit
        } else {
            match classify(k.code) {
                Some(t) => SourceAction::Publish(t),
                None => SourceAction::Ignore,
            }
        },
    }
}

/// The token to publish for a key code that is not the interrupt, if any.
pub fn handle_keycode(code: KeyCode) -> (r: Option<VimKey>)
    ensures
        r == classify(code),
{
    match VimKey::try_from(code) {
        Ok(k) => Some(k),
        Err(()) => None,
    }
}

/// Decides what the event source does with one raw event.
pub fn on_event(ev: Option<KeyEvent>) -> (r: SourceAction)
    ensures
        r == source_action(ev),
        r matches SourceAction::Publish(t) ==> t.wf(),
{
    match ev {
        None => SourceAction::Ignore,
        Some(k) => if is_ctrl_c(k) {
            SourceAction::Exit
        } else {
            match handle_keycode(k.code) {
                Some(t) => SourceAction::Publish(t),
                None => SourceAction::Ignore,
            }
        },
    }
}

/// The tokens that the event source publishes for the events `evs`, in order.
pub open spec fn published(evs: Seq<Option<KeyEvent>>) -> Seq<VimKey>
    decreases evs.len(),
{
    if evs.len() == 0 {
        Seq::empty()
    } else {
        match source_action(evs.last()) {
            SourceAction::Publish(t) => published(evs.drop_last()).push(t),
            _ => published(evs.drop_last()),
        }
    }
}

/// An unrecognised key event, one whose code is neither a character, escape,
/// tab nor backspace, is dropped: inserted anywhere among other events it adds
/// no token to what is published, so no buffer sees any change from it.
pub proof fn lemma_unrecognized_is_dropped(
    before: Seq<Option<KeyEvent>>,
    ev: KeyEvent,
    after: Seq<Option<KeyEvent>>,
)
    requires
        classify(ev.code) is None,
    ensures
        source_action(Some(ev)) == SourceAction::Ignore,
        published(before.push(Some(ev)) + after) == published(before + after),
    decreases after.len(),
{
    if after.len() == 0 {
        assert(before.push(Some(ev)) + after =~= before.push(Some(ev)));
        assert(before + after =~= before);
        assert(before.push(Some(ev)).drop_last() =~= before);
    } else {
        let rest = after.drop_last();
        lemma_unrecognized_is_dropped(before, ev, rest);
        assert((before.push(Some(ev)) + after).drop_last() =~= before.push(Some(ev)) + rest);
        assert((before + after).drop_last() =~= before + rest);
        assert((before.push(Some(ev)) + after).last() == after.last());
        assert((before + after).last() == after.last());
    }
}

} // verus!
