//! The top-level state machine.
//!
//! Five states gate which systems run. Pausing stacks on top of play
//! rather than replacing it, so resuming returns to play with every
//! entity and timer exactly as it was frozen.

use vstd::prelude::*;

verus! {

/// Where the program stands.
#[derive(Clone, Copy, PartialEq, Eq, Structural, Debug)]
pub enum GameState {
    /// The initial state.
    MainMenu,
    OptionsMenu,
    Game,
    Paused,
    GameOver,
}

/// The state stack: the top entry is the current state, and pausing
/// pushes rather than replaces.
#[derive(Clone, Debug)]
pub struct GameFlow {
    pub stack: Vec<GameState>,
}

impl GameFlow {
    /// The stacks the machine can reach: one resting state, or play
    /// with pause stacked on top.
    pub open spec fn wf(self) -> bool {
        ||| self.stack@ == seq![GameState::MainMenu]
        ||| self.stack@ == seq![GameState::OptionsMenu]
        ||| self.stack@ == seq![GameState::Game]
        ||| self.stack@ == seq![GameState::GameOver]
        ||| self.stack@ == seq![GameState::Game, GameState::Paused]
    }

    /// The state currently in charge.
    pub open spec fn current_spec(self) -> GameState
        recommends
            self.stack@.len() > 0,
    {
        self.stack@.last()
    }

    /// Starts at the main menu.
    pub fn new() -> (f: GameFlow)
        ensures
            f.wf(),
            f.stack@ == seq![GameState::MainMenu],
    {
        let mut stack: Vec<GameState> = Vec::new();
        stack.push(GameState::MainMenu);
        proof {
            assert(stack@ =~= seq![GameState::MainMenu]);
        }
        GameFlow { stack }
    }

    /// Reads the state currently in charge.
    pub fn current(&self) -> (s: GameState)
        requires
            self.stack@.len() > 0,
        ensures
            s == self.current_spec(),
    {
        self.stack[self.stack.len() - 1]
    }

    /// Replaces the whole stack with one resting state.
    pub fn reset_to(&mut self, s: GameState)
        ensures
            final(self).stack@ == seq![s],
    {
        self.stack = Vec::new();
        self.stack.push(s);
        proof {
            assert(self.stack@ =~= seq![s]);
        }
    }

    /// Stacks a state on top of the current one.
    pub fn push_state(&mut self, s: GameState)
        ensures
            final(self).stack@ == old(self).stack@.push(s),
    {
        self.stack.push(s);
    }

    /// Uncovers the state below the top one.
    pub fn pop_state(&mut self)
        requires
            old(self).stack@.len() >= 2,
        ensures
            final(self).stack@ == old(self).stack@.drop_last(),
    {
        let _ = self.stack.pop();
    }
}

} // verus!
