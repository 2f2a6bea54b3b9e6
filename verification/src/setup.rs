//! Starting a game and going back to its start.

use vstd::prelude::*;
use crate::board::{scenario_layout, standard_layout, Board, Cell, Layout};
use crate::game::{Game, State, StateView};
use crate::piece::Player;
use crate::selection::Selection;

verus! {

/// What a game is started with.
#[derive(Debug)]
pub struct Config {
    /// The name of a test scenario, or nothing for the standard game.
    pub scenario: Option<String>,
    /// Whether the fog of war is on.
    pub fog: bool,
    /// Whether debugging information is shown.
    pub debug_stats: bool,
}

/// Why a game could not be started.
#[derive(Clone, Copy, Debug, PartialEq, Eq, Structural)]
pub enum ConfigError {
    /// No scenario has the name that was asked for.
    UnknownScenario,
}

/// The state in which a game on `board` starts: White is to move and nothing
/// is marked.
pub open spec fn opening(board: Layout, single_player: bool, fog: bool, debug_stats: bool) -> StateView {
    StateView {
        board,
        turn: Player::White,
        selected: Seq::<Cell>::empty(),
        fog,
        single_player,
        debug_stats,
    }
}

impl Config {
    /// The state that this configuration asks for, if it names no scenario
    /// or a known one: the standard game for two players, or the scenario
    /// in single-player mode.
    pub open spec fn start(&self) -> Option<StateView> {
        match self.scenario {
            None => Some(opening(standard_layout(), false, self.fog, self.debug_stats)),
            Some(title) => match scenario_layout(title@) {
                Some(board) => Some(opening(board, true, self.fog, self.debug_stats)),
                None => None,
            },
        }
    }
}

impl Game {
    /// Starts a game as `config` asks. An unknown scenario name is refused;
    /// it never falls back to the standard game.
    pub fn new(config: &Config) -> (r: Result<Game, ConfigError>)
        ensures
            match r {
                Ok(game) => config.start() == Some(game.state@) && game.initial@ == game.state@,
                Err(e) => config.start() is None && e == ConfigError::UnknownScenario,
            },
    {
        let (board, single_player) = match &config.scenario {
            None => (Board::new(), false),
            Some(title) => match Board::scenario(title.as_str()) {
                Some(board) => (board, true),
                None => {
                    return Err(ConfigError::UnknownScenario);
                },
            },
        };
        let state = State {
            board,
            turn: Player::White,
            selected: Selection::new(),
            fog: config.fog,
            single_player,
            debug_stats: config.debug_stats,
        };
        Ok(Game { initial: state.clone(), state })
    }

    /// Puts the game back into the state it started from.
    pub fn reset(&mut self)
        ensures
            final(self).state@ == old(self).initial@,
            final(self).initial == old(self).initial,
    {
        self.state = self.initial.clone();
    }
}

} // verus!
