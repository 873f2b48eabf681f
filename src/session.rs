//! One tick of the game loop: console lines first, then the encounter with
//! the character met, if any.
use vstd::prelude::*;

use crate::commands::{dispatch, execute_command};
use crate::npcs::{get_npc_by_id, npc_named, Npc, NpcResponse, NpcView, PlayerAction, ResponseView};
use crate::state::{rank, GameState, StateView};
use crate::text::{lowercase, lowercase_of, same_text, trim, trimmed, views};

verus! {

/// Put before an error when it is shown in the console.
pub const ERROR_PREFIX: &'static str = "Error: ";

/// Where a character waits on the map.
pub struct NpcPlacement {
    pub id: String,
    pub x: usize,
    pub y: usize,
}

/// A placement as plain values.
pub struct PlacementView {
    pub id: Seq<char>,
    pub x: usize,
    pub y: usize,
}

impl View for NpcPlacement {
    type V = PlacementView;

    open spec fn view(&self) -> PlacementView {
        PlacementView { id: self.id@, x: self.x, y: self.y }
    }
}

/// What the game loop owns: the game state, the character met, if any, and
/// the characters still waiting on the map.
pub struct Session {
    pub game_state: GameState,
    pub active_npc: Option<Npc>,
    pub placements: Vec<NpcPlacement>,
}

/// A session as plain values.
pub struct SessionView {
    pub state: StateView,
    pub active: Option<NpcView>,
    pub placements: Seq<PlacementView>,
}

impl View for Session {
    type V = SessionView;

    open spec fn view(&self) -> SessionView {
        SessionView {
            state: self.game_state@,
            active: match self.active_npc {
                Some(n) => Some(n@),
                None => None,
            },
            placements: self.placements@.map_values(|p: NpcPlacement| p@),
        }
    }
}

/// What one tick hands out: one line per console line run, and at most one
/// response of the character met.
pub struct TickReport {
    pub results: Vec<String>,
    pub response: Option<NpcResponse>,
}

/// A command's result as the console shows it.
pub open spec fn shown(r: Result<Seq<char>, Seq<char>>) -> Seq<char> {
    match r {
        Ok(m) => m,
        Err(e) => ERROR_PREFIX@ + e,
    }
}

/// The state after running `lines` in order, and what each one showed.
pub open spec fn run_lines(s: StateView, lines: Seq<Seq<char>>) -> (StateView, Seq<Seq<char>>)
    decreases lines.len(),
{
    if lines.len() == 0 {
        (s, seq![])
    } else {
        let (s1, shown_so_far) = run_lines(s, lines.drop_last());
        let (s2, r) = dispatch(s1, lines.last());
        (s2, shown_so_far.push(shown(r)))
    }
}

/// The character and the state after it takes `actions` in order; an action
/// it cannot take is passed over.
pub open spec fn fed(n: NpcView, s: StateView, actions: Seq<PlayerAction>) -> (NpcView, StateView)
    decreases actions.len(),
{
    if actions.len() == 0 {
        (n, s)
    } else {
        let (n1, s1) = fed(n, s, actions.drop_last());
        let a = actions.last();
        if n1.takes(a) {
            (n1.after(a), n1.effect(a, s1))
        } else {
            (n1, s1)
        }
    }
}

/// The index of the first placement on tile (`x`, `y`).
pub open spec fn first_placed(ps: Seq<PlacementView>, x: usize, y: usize) -> Option<int>
    decreases ps.len(),
{
    if ps.len() == 0 {
        None
    } else if ps[0].x == x && ps[0].y == y {
        Some(0)
    } else {
        match first_placed(ps.drop_first(), x, y) {
            Some(i) => Some(i + 1),
            None => None,
        }
    }
}

/// The identifier a placement names a character by: trimmed and lowercased,
/// as the registry reads it.
pub open spec fn resolved_id(p: PlacementView) -> Seq<char> {
    lowercase_of(trimmed(p.id))
}

/// The placements that do not name the character `id`.
pub open spec fn without_id(ps: Seq<PlacementView>, id: Seq<char>) -> Seq<PlacementView> {
    ps.filter(|p: PlacementView| resolved_id(p) != id)
}

/// The session when no character is met: the first character placed on the
/// player's tile, if its identifier names one, is met and greeted.
pub open spec fn encounter_start(v: SessionView) -> SessionView {
    match first_placed(v.placements, v.state.player_x, v.state.player_y) {
        None => v,
        Some(i) => match npc_named(lowercase_of(trimmed(v.placements[i].id))) {
            None => v,
            Some(n) => SessionView {
                state: StateView { in_battle: true, ..n.effect(PlayerAction::Ping, v.state) },
                active: Some(n.after(PlayerAction::Ping)),
                placements: v.placements,
            },
        },
    }
}

/// The session and the response handed out when character `n` is met: it
/// takes the player's `actions`, then those that commands queued, which are
/// cleared; then it hands out one response; a character whose part is over
/// leaves, with every placement that names it.
pub open spec fn encounter_step(v: SessionView, n: NpcView, actions: Seq<PlayerAction>) -> (
    SessionView,
    Option<ResponseView>,
) {
    let (n1, s1) = fed(n, v.state, actions);
    let (n2, s2) = fed(n1, StateView { action_queue: seq![], ..s1 }, s1.action_queue);
    let n3 = if n2.queue().len() > 0 {
        n2.popped()
    } else {
        n2
    };
    let response = if n2.queue().len() > 0 {
        Some(n2.queue()[0])
    } else {
        None
    };
    if n3.completed() {
        (
            SessionView {
                state: StateView { in_battle: false, ..s2 },
                active: None,
                placements: without_id(v.placements, n3.id()),
            },
            response,
        )
    } else {
        (SessionView { state: s2, active: Some(n3), placements: v.placements }, response)
    }
}

/// The session after one tick, what each console line showed, and the
/// response handed out.
pub open spec fn tick_outcome(
    v: SessionView,
    lines: Seq<Seq<char>>,
    actions: Seq<PlayerAction>,
) -> (SessionView, Seq<Seq<char>>, Option<ResponseView>) {
    let (s1, results) = run_lines(v.state, lines);
    let v1 = SessionView { state: s1, ..v };
    match v.active {
        None => (encounter_start(v1), results, None),
        Some(n) => {
            let (v2, response) = encounter_step(v1, n, actions);
            (v2, results, response)
        },
    }
}

proof fn lemma_lines_keep_story(s: StateView, lines: Seq<Seq<char>>)
    ensures
        run_lines(s, lines).0.game_progress == s.game_progress,
    decreases lines.len(),
{
    if lines.len() > 0 {
        lemma_lines_keep_story(s, lines.drop_last());
    }
}

proof fn lemma_fed_raises_story(n: NpcView, s: StateView, actions: Seq<PlayerAction>)
    ensures
        rank(fed(n, s, actions).1.game_progress) >= rank(s.game_progress),
    decreases actions.len(),
{
    if actions.len() > 0 {
        lemma_fed_raises_story(n, s, actions.drop_last());
    }
}

/// A tick never moves the story gate back: console lines leave it as it is,
/// and a character only ever moves it forward.
pub proof fn tick_never_lowers_story(
    v: SessionView,
    lines: Seq<Seq<char>>,
    actions: Seq<PlayerAction>,
)
    ensures
        rank(tick_outcome(v, lines, actions).0.state.game_progress) >= rank(v.state.game_progress),
{
    lemma_lines_keep_story(v.state, lines);
    let s1 = run_lines(v.state, lines).0;
    match v.active {
        None => {},
        Some(n) => {
            lemma_fed_raises_story(n, s1, actions);
            let (n1, s2) = fed(n, s1, actions);
            lemma_fed_raises_story(n1, StateView { action_queue: seq![], ..s2 }, s2.action_queue);
        },
    }
}

/// Feeds `actions` to the character in order, passing over those it cannot
/// take.
pub fn feed_actions(npc: &mut Npc, game_state: &mut GameState, actions: &[PlayerAction])
    ensures
        (final(npc)@, final(game_state)@) == fed(old(npc)@, old(game_state)@, actions@),
{
    let mut i: usize = 0;
    while i < actions.len()
        invariant
            i <= actions.len(),
            (npc@, game_state@) == fed(old(npc)@, old(game_state)@, actions@.take(i as int)),
        decreases actions.len() - i,
    {
        let a = actions[i];
        assert(actions@.take(i + 1).drop_last() =~= actions@.take(i as int));
        assert(actions@.take(i + 1).last() == a);
        let takes = match a {
            PlayerAction::Attack(d) => match npc {
                Npc::Alice(al) => {
                    let h = al.hitpoints as i64 - d as i64;
                    i32::MIN as i64 <= h && h <= i32::MAX as i64
                },
            },
            _ => !npc.job_completed(),
        };
        if takes {
            npc.handle_action(&a, game_state);
        }
        i = i + 1;
    }
    assert(actions@.take(actions.len() as int) =~= actions@);
}

/// Runs the console lines in order and shows what each gave.
fn run_console(game_state: &mut GameState, lines: &[&str]) -> (r: Vec<String>)
    ensures
        (final(game_state)@, r@.map_values(|m: String| m@)) == run_lines(
            old(game_state)@,
            views(lines@),
        ),
{
    let mut results: Vec<String> = Vec::new();
    let mut i: usize = 0;
    while i < lines.len()
        invariant
            i <= lines.len(),
            (game_state@, results@.map_values(|m: String| m@)) == run_lines(
                old(game_state)@,
                views(lines@.take(i as int)),
            ),
        decreases lines.len() - i,
    {
        let ghost before = results@.map_values(|m: String| m@);
        assert(views(lines@.take(i + 1)).drop_last() =~= views(lines@.take(i as int)));
        assert(views(lines@.take(i + 1)).last() == lines@[i as int]@);
        let shown_line = match execute_command(game_state, lines[i]) {
            Ok(m) => m,
            Err(e) => {
                let mut m = String::from_str(ERROR_PREFIX);
                m.append(e.as_str());
                m
            },
        };
        results.push(shown_line);
        assert(results@.map_values(|m: String| m@) =~= before.push(shown_line@));
        i = i + 1;
    }
    assert(lines@.take(lines.len() as int) =~= lines@);
    results
}

/// Takes out every placement that names the character `id`.
fn remove_placements(placements: &mut Vec<NpcPlacement>, id: &str)
    ensures
        final(placements)@.map_values(|p: NpcPlacement| p@) == without_id(
            old(placements)@.map_values(|p: NpcPlacement| p@),
            id@,
        ),
{
    let ghost all = old(placements)@.map_values(|p: NpcPlacement| p@);
    let mut kept: Vec<NpcPlacement> = Vec::new();
    let mut rest: Vec<NpcPlacement> = Vec::new();
    std::mem::swap(&mut rest, placements);
    let ghost source = rest@;
    let mut i: usize = 0;
    assert(source.len() == rest.len());
    while rest.len() > 0
        invariant
            i + rest@.len() == source.len(),
            source.len() <= usize::MAX,
            all == source.map_values(|p: NpcPlacement| p@),
            rest@ == source.subrange(i as int, source.len() as int),
            kept@.map_values(|p: NpcPlacement| p@) == without_id(
                all.take(i as int),
                id@,
            ),
        decreases rest.len(),
    {
        let p = rest.remove(0);
        assert(p == source[i as int]);
        assert(all.take(i + 1) =~= all.take(i as int).push(p@));
        proof {
            all.take(i as int).lemma_filter_push(p@, |q: PlacementView| resolved_id(q) != id@);
        }
        let ghost before = kept@.map_values(|q: NpcPlacement| q@);
        let named = lowercase(trim(p.id.as_str()));
        if !same_text(named.as_str(), id) {
            kept.push(p);
            assert(kept@.map_values(|q: NpcPlacement| q@) =~= before.push(p@));
        }
        assert(rest@ =~= source.subrange(i + 1, source.len() as int));
        i = i + 1;
    }
    assert(all.take(i as int) =~= all);
    *placements = kept;
}

/// The index of the first placement on tile (`x`, `y`).
fn find_placed(placements: &Vec<NpcPlacement>, x: usize, y: usize) -> (r: Option<usize>)
    ensures
        match r {
            Some(i) => i < placements.len() && first_placed(
                placements@.map_values(|p: NpcPlacement| p@),
                x,
                y,
            ) == Some(i as int),
            None => first_placed(placements@.map_values(|p: NpcPlacement| p@), x, y) is None,
        },
{
    let ghost all = placements@.map_values(|p: NpcPlacement| p@);
    let mut i: usize = 0;
    assert(all.subrange(0, all.len() as int) =~= all);
    while i < placements.len()
        invariant
            i <= placements.len(),
            all == placements@.map_values(|p: NpcPlacement| p@),
            first_placed(all, x, y) == match first_placed(
                all.subrange(i as int, all.len() as int),
                x,
                y,
            ) {
                Some(j) => Some(j + i),
                None => None::<int>,
            },
        decreases placements.len() - i,
    {
        let ghost tail = all.subrange(i as int, all.len() as int);
        assert(tail.drop_first() =~= all.subrange(i + 1, all.len() as int));
        assert(tail[0] == placements@[i as int]@);
        if placements[i].x == x && placements[i].y == y {
            return Some(i);
        }
        i = i + 1;
    }
    assert(all.subrange(i as int, all.len() as int) =~= seq![]);
    None
}

impl Session {
    /// Runs one tick: the console lines in order, then the encounter. With
    /// no character met, the first one placed on the player's tile is met
    /// and greeted. With one met, it takes the player's `actions`, then the
    /// actions that commands queued, which are cleared; it hands out at most
    /// one response; and once its part is over it leaves the map.
    pub fn tick(&mut self, lines: &[&str], actions: &[PlayerAction]) -> (r: TickReport)
        ensures
            (final(self)@, r.results@.map_values(|m: String| m@), match r.response {
                Some(x) => Some(x@),
                None => None::<ResponseView>,
            }) == tick_outcome(old(self)@, views(lines@), actions@),
            rank(final(self).game_state.game_progress) >= rank(old(self).game_state.game_progress),
    {
        proof {
            tick_never_lowers_story(old(self)@, views(lines@), actions@);
        }
        let results = run_console(&mut self.game_state, lines);
        match self.active_npc.take() {
            None => {
                match find_placed(&self.placements, self.game_state.player_x, self.game_state.player_y) {
                    None => {},
                    Some(i) => {
                        match get_npc_by_id(self.placements[i].id.as_str()) {
                            None => {},
                            Some(mut npc) => {
                                npc.handle_action(&PlayerAction::Ping, &mut self.game_state);
                                self.game_state.in_battle = true;
                                self.active_npc = Some(npc);
                            },
                        }
                    },
                }
                TickReport { results, response: None }
            },
            Some(mut npc) => {
                feed_actions(&mut npc, &mut self.game_state, actions);
                let mut queued: Vec<PlayerAction> = Vec::new();
                std::mem::swap(&mut queued, &mut self.game_state.action_queue);
                feed_actions(&mut npc, &mut self.game_state, queued.as_slice());
                let response = npc.get_response();
                if npc.job_completed() {
                    remove_placements(&mut self.placements, npc.id());
                    self.game_state.in_battle = false;
                } else {
                    self.active_npc = Some(npc);
                }
                TickReport { results, response }
            },
        }
    }
}

} // verus!
