//! The state of a game and the view of it that the contracts speak of.

use vstd::prelude::*;
use crate::board::{counter_fits, in_bounds, relocate, Board, Cell, Layout};
use crate::piece::{Player, Unit};
use crate::rules::{holds_ally, holds_enemy, in_sight, legal_move};
use crate::selection::Selection;

verus! {

/// Everything that a game in progress consists of.
#[derive(Debug)]
pub struct State {
    pub board: Board,
    pub turn: Player,
    pub selected: Selection,
    pub fog: bool,
    pub single_player: bool,
    pub debug_stats: bool,
}

/// A game: the state it started from and the state it is in.
#[derive(Debug)]
pub struct Game {
    pub initial: State,
    pub state: State,
}

/// A state as the contracts see it.
pub struct StateView {
    pub board: Layout,
    pub turn: Player,
    pub selected: Seq<Cell>,
    pub fog: bool,
    pub single_player: bool,
    pub debug_stats: bool,
}

impl View for State {
    type V = StateView;

    open spec fn view(&self) -> StateView {
        StateView {
            board: self.board@,
            turn: self.turn,
            selected: self.selected@,
            fog: self.fog,
            single_player: self.single_player,
            debug_stats: self.debug_stats,
        }
    }
}

/// What choosing a target cell came to.
#[derive(Clone, Copy, Debug, PartialEq, Eq, Structural)]
pub enum Outcome {
    /// No guard held; nothing changed.
    Ignored,
    /// The target, an ally, was marked in addition to what was marked.
    Marked,
    /// The target, an ally, became the only marked cell.
    Reselected,
    /// The marked piece moved onto the empty target.
    Moved,
    /// The marked piece captured the enemy on the target.
    Captured,
    /// The two marked pieces castled.
    Castled,
}

impl StateView {
    /// The cell holds a piece of the player to move.
    pub open spec fn ally(self, c: Cell) -> bool {
        holds_ally(self.board, self.turn, c)
    }

    /// The cell holds a piece of the other player.
    pub open spec fn enemy(self, c: Cell) -> bool {
        holds_enemy(self.board, self.turn, c)
    }

    /// `to` is a target of the piece on `from`.
    pub open spec fn legal(self, from: Cell, to: Cell) -> bool {
        legal_move(self.board, self.turn, from, to)
    }

    /// The cells of the grid that the player to move sees: each cell that
    /// holds one of that player's pieces, and each cell in sight of one.
    pub open spec fn visible(self) -> Set<Cell> {
        Set::new(
            |c: Cell|
                in_bounds(c) && exists|p: Cell|
                    #[trigger] self.ally(p) && (c == p || in_sight(self.board, self.turn, p, c)),
        )
    }

    /// The counter of every marked piece can be raised.
    pub open spec fn can_count(self) -> bool {
        forall|i: int|
            0 <= i < self.selected.len() ==> counter_fits(self.board, #[trigger] self.selected[i])
    }

    /// Who moves once the turn is concluded: the opponent, or, in
    /// single-player mode, the same player again.
    pub open spec fn next_turn(self) -> Player {
        if self.single_player {
            self.turn
        } else {
            self.turn.spec_opponent()
        }
    }

    /// The state once a turn that left the board as `board` is concluded:
    /// nothing is marked and the turn has passed on.
    pub open spec fn concluded(self, board: Layout) -> StateView {
        StateView { board, turn: self.next_turn(), selected: Seq::empty(), ..self }
    }

    /// A piece of the player to move stands on `from`, and `to` is a cell of
    /// the grid.
    pub open spec fn can_move(self, from: Cell, to: Cell) -> bool {
        self.ally(from) && in_bounds(to)
    }

    /// The state after the piece on `from` was sent to `to`: relocated and
    /// the turn concluded if that can be done, else unchanged.
    pub open spec fn after_move(self, from: Cell, to: Cell) -> StateView {
        if self.can_move(from, to) {
            self.concluded(relocate(self.board, from, to))
        } else {
            self
        }
    }

    /// The state after the piece on `from` was sent against `to`: as after a
    /// move if `to` is a target of that piece, else unchanged.
    pub open spec fn after_attack(self, from: Cell, to: Cell) -> StateView {
        if self.legal(from, to) {
            self.after_move(from, to)
        } else {
            self
        }
    }

    /// Where the piece on `at` lands in a castle: a rook two columns toward
    /// higher columns, a king two columns toward lower ones.
    pub open spec fn landing(self, at: Cell) -> Cell {
        match self.board[at].unit {
            Unit::Rook => (at.0 + 2, at.1),
            Unit::King => (at.0 - 2, at.1),
            _ => at,
        }
    }

    /// The piece on `at` may take part in a castle: it has never moved, and
    /// its landing cell is an empty cell of the grid.
    pub open spec fn may_castle(self, at: Cell) -> bool {
        &&& self.board.contains_key(at)
        &&& self.board[at].moved == 0
        &&& in_bounds(self.landing(at))
        &&& !self.board.contains_key(self.landing(at))
    }

    /// The first two marked cells hold a king and a rook that may both take
    /// part in a castle.
    pub open spec fn castle_ready(self) -> bool {
        &&& self.selected.len() >= 2
        &&& self.may_castle(self.selected[0])
        &&& self.may_castle(self.selected[1])
        &&& {
            let first = self.board[self.selected[0]].unit;
            let second = self.board[self.selected[1]].unit;
            ||| first == Unit::King && second == Unit::Rook
            ||| first == Unit::Rook && second == Unit::King
        }
    }

    /// The state after a castle was asked for: if the state is ready for
    /// one, the first marked piece and then the second are relocated to their
    /// landing cells and the turn is concluded; else nothing changes.
    pub open spec fn after_castle(self) -> StateView {
        if self.castle_ready() {
            let first = self.selected[0];
            let second = self.selected[1];
            self.concluded(
                relocate(
                    relocate(self.board, first, self.landing(first)),
                    second,
                    self.landing(second),
                ),
            )
        } else {
            self
        }
    }

    /// What choosing `target` comes to, with or without the multi-select
    /// modifier.
    pub open spec fn outcome(self, target: Cell, multi_select: bool) -> Outcome {
        if multi_select {
            if self.ally(target) {
                Outcome::Marked
            } else {
                Outcome::Ignored
            }
        } else if !self.board.contains_key(target) {
            if self.selected.len() > 1 {
                if self.castle_ready() {
                    Outcome::Castled
                } else {
                    Outcome::Ignored
                }
            } else if self.selected.len() == 1 && self.legal(self.selected[0], target)
                && self.can_move(self.selected[0], target) {
                Outcome::Moved
            } else {
                Outcome::Ignored
            }
        } else if self.enemy(target) && self.selected.len() == 1 {
            if self.legal(self.selected[0], target) && self.can_move(self.selected[0], target) {
                Outcome::Captured
            } else {
                Outcome::Ignored
            }
        } else if self.ally(target) {
            Outcome::Reselected
        } else {
            Outcome::Ignored
        }
    }

    /// The state after `target` was chosen.
    pub open spec fn after(self, target: Cell, multi_select: bool) -> StateView {
        match self.outcome(target, multi_select) {
            Outcome::Ignored => self,
            Outcome::Marked => StateView {
                selected: if self.selected.contains(target) {
                    self.selected
                } else {
                    self.selected.push(target)
                },
                ..self
            },
            Outcome::Reselected => StateView { selected: seq![target], ..self },
            Outcome::Moved | Outcome::Captured => self.after_move(self.selected[0], target),
            Outcome::Castled => self.after_castle(),
        }
    }
}

impl Clone for State {
    fn clone(&self) -> (copy: State)
        ensures
            copy@ == self@,
            copy.board == self.board,
    {
        State {
            board: self.board.clone(),
            turn: self.turn,
            selected: self.selected.clone(),
            fog: self.fog,
            single_player: self.single_player,
            debug_stats: self.debug_stats,
        }
    }
}

impl Clone for Game {
    fn clone(&self) -> (copy: Game)
        ensures
            copy.initial@ == self.initial@,
            copy.state@ == self.state@,
    {
        Game { initial: self.initial.clone(), state: self.state.clone() }
    }
}

} // verus!
