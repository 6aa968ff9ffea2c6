//! The decisions of a snapshot consumer: render each snapshot until the quit
//! sentinel `"q"` arrives.
use vstd::prelude::*;
use vstd::string::StringExecFns;

verus! {

/// What a consumer does with one received snapshot.
#[derive(Clone, Copy, Debug, PartialEq, Eq, Structural)]
pub enum ConsumerAction {
    /// Render the snapshot and wait for the next one.
    Render,
    /// Leave the receive loop.
    Stop,
}

/// The quit sentinel.
pub open spec fn is_quit(s: Seq<char>) -> bool {
    s == seq!['q']
}

/// Decides what to do with one received snapshot.
pub fn on_snapshot(s: &String) -> (r: ConsumerAction)
    ensures
        r == ConsumerAction::Stop <==> is_quit(s@),
{
    let q = String::from_str("q");
    proof {
        reveal_strlit("q");
    }
    assert(q@ =~= seq!['q']);
    if *s == q {
        ConsumerAction::Stop
    } else {
        ConsumerAction::Render
    }
}

/// The snapshots that a consumer renders when it receives `snaps` in order.
pub open spec fn rendered(snaps: Seq<Seq<char>>) -> Seq<Seq<char>>
    decreases snaps.len(),
{
    if snaps.len() == 0 {
        Seq::empty()
    } else if is_quit(snaps[0]) {
        Seq::empty()
    } else {
        seq![snaps[0]] + rendered(snaps.drop_first())
    }
}

/// Once the sentinel arrives nothing more is rendered: whatever follows it,
/// the renders are those of the snapshots before it, and the sentinel itself
/// is never rendered.
pub proof fn lemma_quit_stops_rendering(
    before: Seq<Seq<char>>,
    q: Seq<char>,
    after: Seq<Seq<char>>,
)
    requires
        is_quit(q),
    ensures
        rendered(before.push(q) + after) == rendered(before),
    decreases before.len(),
{
    if before.len() == 0 {
        assert((before.push(q) + after)[0] == q);
    } else {
        assert((before.push(q) + after)[0] == before[0]);
        assert((before.push(q) + after).drop_first() =~= before.drop_first().push(q) + after);
        lemma_quit_stops_rendering(before.drop_first(), q, after);
    }
}

/// The snapshots rendered when `snaps` are received in order: those before
/// the first sentinel.
pub fn render_until_quit(snaps: &Vec<String>) -> (r: Vec<String>)
    ensures
        r@.map_values(|s: String| s@) == rendered(snaps@.map_values(|s: String| s@)),
{
    let ghost all = snaps@.map_values(|s: String| s@);
    let mut out: Vec<String> = Vec::new();
    let mut i: usize = 0;
    assert(all.subrange(0, all.len() as int) =~= all);
    assert(out@.map_values(|s: String| s@) + rendered(all) =~= rendered(all));
    while i < snaps.len()
        invariant
            i <= snaps@.len(),
            all == snaps@.map_values(|s: String| s@),
            rendered(all) == out@.map_values(|s: String| s@) + rendered(all.subrange(i as int, all.len() as int)),
        decreases snaps@.len() - i,
    {
        let ghost tail = all.subrange(i as int, all.len() as int);
        assert(tail[0] == all[i as int]);
        match on_snapshot(&snaps[i]) {
            ConsumerAction::Stop => {
                assert(rendered(tail) =~= Seq::<Seq<char>>::empty());
                assert(out@.map_values(|s: String| s@) + Seq::<Seq<char>>::empty() =~= out@.map_values(|s: String| s@));
                return out;
            },
            ConsumerAction::Render => {
                let ghost before = out@;
                out.push(snaps[i].clone());
                assert(tail.drop_first() =~= all.subrange(i + 1, all.len() as int));
                assert(out@.map_values(|s: String| s@) =~= before.map_values(|s: String| s@).push(all[i as int]));
                assert(before.map_values(|s: String| s@) + rendered(tail) =~= out@.map_values(|s: String| s@) + rendered(tail.drop_first()));
            },
        }
        i = i + 1;
    }
    assert(all.subrange(i as int, all.len() as int) =~= Seq::<Seq<char>>::empty());
    assert(out@.map_values(|s: String| s@) + Seq::<Seq<char>>::empty() =~= out@.map_values(|s: String| s@));
    out
}

} // verus!
