//! What passes between the player and a non-player character.
use vstd::prelude::*;

use crate::alice::{
    fresh_alice, interaction, script_effect, speaker_name, AliceNpc, AliceView, ALICE_ID,
    INFO_BREAK, INFO_LOOKS, INFO_ROLE, INFO_TITLE, NAME_KNOWN_STEP, TERMINAL_STEP, UNKNOWN_NAME,
};
use crate::state::{GameState, StateView};
use crate::text::{lowercase, lowercase_of, same_text, trim, trimmed};

verus! {

/// One thing the player does during an encounter.
#[derive(Clone, Copy, Debug, PartialEq, Eq, Structural)]
pub enum PlayerAction {
    /// Starts the encounter, or moves it on without a new choice.
    Ping,
    /// Picks the choice at this index among those last offered.
    Respond(usize),
    /// Deals this much damage.
    Attack(i32),
}

impl Default for PlayerAction {
    fn default() -> (r: PlayerAction)
        ensures
            r == PlayerAction::Ping,
    {
        PlayerAction::Ping
    }
}

/// One message of a character, with the choices offered after it.
#[derive(Clone, Debug)]
pub struct NpcResponse {
    pub message: String,
    /// Who speaks; `None` for the narrator.
    pub name: Option<String>,
    /// The choices offered; empty where the player can only go on.
    pub choices: Vec<String>,
}

/// A response as plain text values.
pub struct ResponseView {
    pub message: Seq<char>,
    pub name: Option<Seq<char>>,
    pub choices: Seq<Seq<char>>,
}

impl View for NpcResponse {
    type V = ResponseView;

    open spec fn view(&self) -> ResponseView {
        ResponseView {
            message: self.message@,
            name: match self.name {
                Some(n) => Some(n@),
                None => None,
            },
            choices: self.choices@.map_values(|c: String| c@),
        }
    }
}

/// The views of a sequence of responses.
pub open spec fn response_views(q: Seq<NpcResponse>) -> Seq<ResponseView> {
    q.map_values(|r: NpcResponse| r@)
}

/// A character the player can meet.
pub enum Npc {
    Alice(AliceNpc),
}

/// A character as plain values.
pub enum NpcView {
    Alice(AliceView),
}

impl View for Npc {
    type V = NpcView;

    open spec fn view(&self) -> NpcView {
        match self {
            Npc::Alice(a) => NpcView::Alice(a@),
        }
    }
}

impl NpcView {
    /// The identifier the character is placed under.
    pub open spec fn id(self) -> Seq<char> {
        match self {
            NpcView::Alice(_) => ALICE_ID@,
        }
    }

    pub open spec fn progress(self) -> nat {
        match self {
            NpcView::Alice(a) => a.progress,
        }
    }

    pub open spec fn hitpoints(self) -> int {
        match self {
            NpcView::Alice(a) => a.hitpoints,
        }
    }

    /// Responses not yet handed out, oldest first.
    pub open spec fn queue(self) -> Seq<ResponseView> {
        match self {
            NpcView::Alice(a) => a.queue,
        }
    }

    /// Whether the character's part is over.
    pub open spec fn completed(self) -> bool {
        match self {
            NpcView::Alice(a) => a.progress >= TERMINAL_STEP,
        }
    }

    /// Whether the character can take `action`: an attack must leave its hit
    /// points within `i32`, any other action needs a script step left.
    pub open spec fn takes(self, action: PlayerAction) -> bool {
        match action {
            PlayerAction::Attack(d) => i32::MIN <= self.hitpoints() - d <= i32::MAX,
            _ => !self.completed(),
        }
    }

    /// The character after taking `action`.
    pub open spec fn after(self, action: PlayerAction) -> NpcView {
        match self {
            NpcView::Alice(a) => NpcView::Alice(
                match action {
                    PlayerAction::Ping => interaction(a, a.previous_choice),
                    PlayerAction::Respond(n) => interaction(a, n as nat),
                    PlayerAction::Attack(d) => AliceView { hitpoints: a.hitpoints - d, ..a },
                },
            ),
        }
    }

    /// The game state after the character takes `action`.
    pub open spec fn effect(self, action: PlayerAction, s: StateView) -> StateView {
        match action {
            PlayerAction::Attack(_) => s,
            _ => match self {
                NpcView::Alice(a) => script_effect(a.progress as int, s),
            },
        }
    }

    /// The character with its oldest response handed out.
    pub open spec fn popped(self) -> NpcView {
        match self {
            NpcView::Alice(a) => NpcView::Alice(AliceView { queue: a.queue.drop_first(), ..a }),
        }
    }
}

impl Npc {
    /// The identifier the character is placed under.
    pub fn id(&self) -> (r: &'static str)
        ensures
            r@ == self@.id(),
    {
        match self {
            Npc::Alice(a) => a.id(),
        }
    }

    /// The name the player knows the character by so far.
    pub fn name(&self) -> (r: &'static str)
        ensures
            r@ == speaker_name(self@.progress() as int),
    {
        match self {
            Npc::Alice(a) => a.name(),
        }
    }

    /// What the details panel tells of the character.
    pub fn info(&self) -> (r: String)
        ensures
            r@ == if self@.progress() >= NAME_KNOWN_STEP {
                INFO_TITLE@ + INFO_BREAK@ + INFO_LOOKS@ + INFO_BREAK@ + INFO_ROLE@
            } else {
                UNKNOWN_NAME@
            },
    {
        match self {
            Npc::Alice(a) => a.info(),
        }
    }

    /// Reacts to one action of the player.
    pub fn handle_action(&mut self, action: &PlayerAction, game_state: &mut GameState)
        requires
            old(self)@.takes(*action),
        ensures
            final(self)@ == old(self)@.after(*action),
            final(game_state)@ == old(self)@.effect(*action, old(game_state)@),
    {
        match self {
            Npc::Alice(a) => a.handle_action(action, game_state),
        }
    }

    /// Hands out the oldest response not yet handed out.
    pub fn get_response(&mut self) -> (r: Option<NpcResponse>)
        ensures
            old(self)@.queue().len() == 0 ==> (r is None) && final(self)@ == old(self)@,
            old(self)@.queue().len() > 0 ==> (r is Some) && r->0@ == old(self)@.queue()[0]
                && final(self)@ == old(self)@.popped(),
    {
        match self {
            Npc::Alice(a) => a.get_response(),
        }
    }

    /// Whether the character's part is over.
    pub fn job_completed(&self) -> (r: bool)
        ensures
            r == self@.completed(),
    {
        match self {
            Npc::Alice(a) => a.job_completed(),
        }
    }
}

/// The character at the start of an encounter, for an identifier that is
/// already lowercased.
pub open spec fn npc_named(id: Seq<char>) -> Option<NpcView> {
    if id == ALICE_ID@ {
        Some(NpcView::Alice(fresh_alice()))
    } else {
        None
    }
}

/// The character, fresh, for an identifier that is already lowercased.
pub fn npc_by_lowercase_id(id: &str) -> (r: Option<Npc>)
    ensures
        match r {
            Some(n) => npc_named(id@) == Some(n@),
            None => npc_named(id@) is None,
        },
{
    if same_text(id, ALICE_ID) {
        Some(Npc::Alice(AliceNpc::default()))
    } else {
        None
    }
}

/// The character, fresh, that an identifier names, ignoring surrounding
/// whitespace and case.
pub fn get_npc_by_id(name: &str) -> (r: Option<Npc>)
    ensures
        match r {
            Some(n) => npc_named(lowercase_of(trimmed(name@))) == Some(n@),
            None => npc_named(lowercase_of(trimmed(name@))) is None,
        },
{
    let lowered = lowercase(trim(name));
    npc_by_lowercase_id(lowered.as_str())
}

} // verus!
