//! The intro cutscene: a run of still frames shown before play starts.
use vstd::prelude::*;

use crate::state::{GameProgress, GameState, StateView};

verus! {

/// A cutscene: how many frames it has and which one is shown.
pub struct Cg {
    pub frames: usize,
    pub index: usize,
}

/// What the screen shows after one frame of the game loop.
#[derive(Clone, Copy, Debug, PartialEq, Eq, Structural)]
pub enum CgFrame {
    /// The story is past the intro: no cutscene.
    Hidden,
    /// The frame at this index is shown.
    Showing(usize),
    /// The last frame was passed: the cutscene is over.
    Finished,
}

/// The cutscene, the state and what is shown after one frame of the loop,
/// given whether the player pressed the key that moves on.
pub open spec fn cg_step(cg: Cg, s: StateView, pressed: bool) -> (Cg, StateView, CgFrame) {
    if s.game_progress != GameProgress::Intro {
        (cg, s, CgFrame::Hidden)
    } else if !pressed {
        (cg, StateView { is_showing_cg: true, ..s }, CgFrame::Showing(cg.index))
    } else if cg.index + 1 >= cg.frames {
        (
            Cg { index: (cg.index + 1) as usize, ..cg },
            StateView { is_showing_cg: false, game_progress: GameProgress::Tutorial, ..s },
            CgFrame::Finished,
        )
    } else {
        (
            Cg { index: (cg.index + 1) as usize, ..cg },
            StateView { is_showing_cg: true, ..s },
            CgFrame::Showing((cg.index + 1) as usize),
        )
    }
}

impl Cg {
    /// Runs the intro cutscene for one frame of the loop: while the story is
    /// at its intro the cutscene is shown, a press moves it on by one frame,
    /// and passing the last frame ends it and starts the tutorial.
    pub fn show(&mut self, game_state: &mut GameState, pressed: bool) -> (r: CgFrame)
        requires
            old(self).index < usize::MAX,
        ensures
            (*final(self), final(game_state)@, r) == cg_step(*old(self), old(game_state)@, pressed),
    {
        if game_state.game_progress != GameProgress::Intro {
            return CgFrame::Hidden;
        }
        game_state.is_showing_cg = true;
        if !pressed {
            return CgFrame::Showing(self.index);
        }
        self.index = self.index + 1;
        if self.index >= self.frames {
            game_state.is_showing_cg = false;
            game_state.game_progress = GameProgress::Tutorial;
            CgFrame::Finished
        } else {
            CgFrame::Showing(self.index)
        }
    }
}

} // verus!
