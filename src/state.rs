//! The game state that commands and characters act on.
use vstd::prelude::*;

use crate::npcs::PlayerAction;
use crate::text::{append_decimal, decimal};

verus! {

/// How far the story has unlocked the interface.
#[derive(Clone, Copy, Debug, PartialEq, Eq, Structural)]
pub enum GameProgress {
    Intro,
    Tutorial,
    HasPanel,
    HasTerminal,
}

/// The place of a story gate in the order the story passes them.
pub open spec fn rank(p: GameProgress) -> nat {
    match p {
        GameProgress::Intro => 0,
        GameProgress::Tutorial => 1,
        GameProgress::HasPanel => 2,
        GameProgress::HasTerminal => 3,
    }
}

/// The state with its story gate moved forward to `p`; a gate already at or
/// past `p` stays where it is.
pub open spec fn raised(s: StateView, p: GameProgress) -> StateView {
    if rank(s.game_progress) < rank(p) {
        StateView { game_progress: p, ..s }
    } else {
        s
    }
}

/// The one shared state of a running session.
pub struct GameState {
    pub game_progress: GameProgress,
    pub is_showing_cg: bool,
    pub player_level: i32,
    pub player_hitpoints: i32,
    pub player_max_hp: i32,
    pub player_atk: i32,
    pub player_def: i32,
    pub player_x: usize,
    pub player_y: usize,
    pub in_battle: bool,
    /// Actions that commands queued for the character met, oldest first.
    pub action_queue: Vec<PlayerAction>,
}

/// The game state as plain values.
pub struct StateView {
    pub game_progress: GameProgress,
    pub is_showing_cg: bool,
    pub player_level: i32,
    pub player_hitpoints: i32,
    pub player_max_hp: i32,
    pub player_atk: i32,
    pub player_def: i32,
    pub player_x: usize,
    pub player_y: usize,
    pub in_battle: bool,
    pub action_queue: Seq<PlayerAction>,
}

impl View for GameState {
    type V = StateView;

    open spec fn view(&self) -> StateView {
        StateView {
            game_progress: self.game_progress,
            is_showing_cg: self.is_showing_cg,
            player_level: self.player_level,
            player_hitpoints: self.player_hitpoints,
            player_max_hp: self.player_max_hp,
            player_atk: self.player_atk,
            player_def: self.player_def,
            player_x: self.player_x,
            player_y: self.player_y,
            in_battle: self.in_battle,
            action_queue: self.action_queue@,
        }
    }
}

/// The state at the start of a session.
pub open spec fn initial_state() -> StateView {
    StateView {
        game_progress: GameProgress::Intro,
        is_showing_cg: false,
        player_level: 0,
        player_hitpoints: 20,
        player_max_hp: 20,
        player_atk: 5,
        player_def: 2,
        player_x: 0,
        player_y: 0,
        in_battle: false,
        action_queue: seq![],
    }
}

impl Default for GameState {
    fn default() -> (r: GameState)
        ensures
            r@ == initial_state(),
    {
        GameState {
            game_progress: GameProgress::Intro,
            is_showing_cg: false,
            player_level: 0,
            player_hitpoints: 20,
            player_max_hp: 20,
            player_atk: 5,
            player_def: 2,
            player_x: 0,
            player_y: 0,
            in_battle: false,
            action_queue: Vec::new(),
        }
    }
}

pub const LEVEL_LABEL: &'static str = "Your access level: ";

pub const HP_LABEL: &'static str = "\nHP: ";

pub const HP_SEPARATOR: &'static str = " / ";

pub const ATK_LABEL: &'static str = "\nATK: ";

pub const DEF_LABEL: &'static str = "\nDEF: ";

/// The player's stats as shown in the details panel.
pub open spec fn details_text(s: StateView) -> Seq<char> {
    LEVEL_LABEL@ + decimal(s.player_level as int) + HP_LABEL@ + decimal(s.player_hitpoints as int)
        + HP_SEPARATOR@ + decimal(s.player_max_hp as int) + ATK_LABEL@ + decimal(
        s.player_atk as int,
    ) + DEF_LABEL@ + decimal(s.player_def as int)
}

impl GameState {
    /// Moves the story gate forward to `p`, never back.
    pub fn raise_progress(&mut self, p: GameProgress)
        ensures
            final(self)@ == raised(old(self)@, p),
    {
        let below = match (self.game_progress, p) {
            (GameProgress::Intro, GameProgress::Intro) => false,
            (GameProgress::Intro, _) => true,
            (GameProgress::Tutorial, GameProgress::HasPanel) => true,
            (GameProgress::Tutorial, GameProgress::HasTerminal) => true,
            (GameProgress::HasPanel, GameProgress::HasTerminal) => true,
            _ => false,
        };
        if below {
            self.game_progress = p;
        }
    }

    /// The access level, hit points, attack and defence, one per line.
    pub fn player_details(&self) -> (r: String)
        ensures
            r@ == details_text(self@),
    {
        let mut res = String::new();
        res.append(LEVEL_LABEL);
        append_decimal(&mut res, self.player_level);
        res.append(HP_LABEL);
        append_decimal(&mut res, self.player_hitpoints);
        res.append(HP_SEPARATOR);
        append_decimal(&mut res, self.player_max_hp);
        res.append(ATK_LABEL);
        append_decimal(&mut res, self.player_atk);
        res.append(DEF_LABEL);
        append_decimal(&mut res, self.player_def);
        assert(res@ =~= details_text(self@));
        res
    }
}

} // verus!
