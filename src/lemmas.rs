//! Laws that hold of the console and of the characters for all inputs.
use vstd::prelude::*;

use crate::alice::{fresh_alice, script_says_something, TERMINAL_STEP, TERMINAL_UNLOCK_STEP};
use crate::commands::{
    command_word, dispatch, listed, registered, resolved, runnable, GameCommand, ACCESS_DENIED,
    INVALID_COMMAND,
};
use crate::npcs::{NpcView, PlayerAction};
use crate::session::fed;
use crate::state::{rank, GameProgress, StateView};

verus! {

/// A line that names a command above the player's level is refused with the
/// same message, and the state stays as it was: the command never runs.
pub proof fn denied_below_level(s: StateView, line: Seq<char>, c: GameCommand)
    requires
        resolved(command_word(line)) == Some(c),
        (s.player_level as int) < c.level(),
    ensures
        dispatch(s, line) == (s, Err::<Seq<char>, Seq<char>>(ACCESS_DENIED@)),
{
}

/// A line whose first word names no command fails with that word, at any
/// level, and the state stays as it was.
pub proof fn unknown_names_are_invalid(s: StateView, line: Seq<char>)
    requires
        resolved(command_word(line)) is None,
    ensures
        dispatch(s, line) == (s, Err::<Seq<char>, Seq<char>>(INVALID_COMMAND@ + command_word(line))),
{
    if crate::text::words(line).len() == 0 {
        assert(INVALID_COMMAND@ + Seq::<char>::empty() =~= INVALID_COMMAND@);
    }
}

/// The listing for a prefix and a level holds a command exactly when its name
/// starts with the prefix and the level reaches the command's own.
pub proof fn listed_exactly(prefix: Seq<char>, level: int)
    ensures
        forall|c: GameCommand| #[trigger]
            listed(prefix, level).contains(c) <==> runnable(c, prefix, level),
{
    let pred = |c: GameCommand| runnable(c, prefix, level);
    assert forall|c: GameCommand| #[trigger]
        listed(prefix, level).contains(c) <==> runnable(c, prefix, level) by {
        let i: int = match c {
            GameCommand::Commands => 0,
            GameCommand::Help => 1,
            GameCommand::Man => 2,
            GameCommand::Fireball => 3,
        };
        assert(registered()[i] == c);
        if runnable(c, prefix, level) {
            registered().lemma_filter_contains(pred, i);
        }
        if listed(prefix, level).contains(c) {
            let j = choose|j: int| 0 <= j < listed(prefix, level).len() && listed(prefix, level)[j] == c;
            registered().lemma_filter_pred(pred, j);
        }
    }
}

/// A character takes a `Ping` or a `Respond` exactly while its part is not
/// over; each moves its progress on by exactly one and queues at least one
/// response. An attack takes exactly its damage off the hit points and leaves
/// the progress and the queue as they were. No action moves the progress or
/// the story gate back.
pub proof fn progress_moves_by_steps(n: NpcView, a: PlayerAction)
    ensures
        !(a is Attack) ==> (n.takes(a) <==> !n.completed()),
        n.takes(a) ==> n.after(a).progress() >= n.progress(),
        n.takes(a) && !(a is Attack) ==> n.after(a).progress() == n.progress() + 1,
        n.takes(a) && (a is Attack) ==> n.after(a).progress() == n.progress()
            && n.after(a).hitpoints() == n.hitpoints() - a->Attack_0 && n.after(a).queue()
            == n.queue(),
        n.takes(a) && !(a is Attack) ==> n.after(a).queue().len() > n.queue().len(),
        forall|s: StateView| #[trigger]
            rank(n.effect(a, s).game_progress) >= rank(s.game_progress),
{
    if n.takes(a) && !(a is Attack) {
        match n {
            NpcView::Alice(al) => {
                let c = match a {
                    PlayerAction::Respond(k) => k as int,
                    _ => al.previous_choice as int,
                };
                script_says_something(al.progress as int, c);
            },
        }
    }
}

/// Responses queued earlier stay ahead of those an action queues, and
/// handing one out takes the oldest.
pub proof fn responses_keep_order(n: NpcView, a: PlayerAction)
    ensures
        n.takes(a) ==> n.after(a).queue().len() >= n.queue().len() && n.after(a).queue().take(
            n.queue().len() as int,
        ) == n.queue(),
        n.popped().queue() == n.queue().drop_first(),
{
    if n.takes(a) {
        assert(n.after(a).queue().take(n.queue().len() as int) =~= n.queue());
    }
}

/// From the start of an encounter, `k` interactions without attacks leave the
/// character at step `k`; its part is over exactly after the last step. The
/// first step opens the info panel and the terminal follows later; the story
/// gate never moves back.
pub proof fn script_runs_to_end(s: StateView, acts: Seq<PlayerAction>)
    requires
        acts.len() <= TERMINAL_STEP,
        forall|i: int| 0 <= i < acts.len() ==> !(#[trigger] acts[i] is Attack),
    ensures
        fed(NpcView::Alice(fresh_alice()), s, acts).0.progress() == acts.len(),
        fed(NpcView::Alice(fresh_alice()), s, acts).0.completed() <==> acts.len() == TERMINAL_STEP,
        acts.len() == 0 ==> fed(NpcView::Alice(fresh_alice()), s, acts).1 == s,
        rank(fed(NpcView::Alice(fresh_alice()), s, acts).1.game_progress) >= rank(s.game_progress),
        1 <= acts.len() <= TERMINAL_UNLOCK_STEP ==> fed(
            NpcView::Alice(fresh_alice()),
            s,
            acts,
        ).1.game_progress == if s.game_progress == GameProgress::HasTerminal {
            GameProgress::HasTerminal
        } else {
            GameProgress::HasPanel
        },
        acts.len() > TERMINAL_UNLOCK_STEP ==> fed(
            NpcView::Alice(fresh_alice()),
            s,
            acts,
        ).1.game_progress == GameProgress::HasTerminal,
    decreases acts.len(),
{
    if acts.len() > 0 {
        let rest = acts.drop_last();
        assert forall|i: int| 0 <= i < rest.len() implies !(#[trigger] rest[i] is Attack) by {
            assert(rest[i] == acts[i]);
        }
        script_runs_to_end(s, rest);
        assert(!(acts[acts.len() - 1] is Attack));
    }
}

} // verus!
