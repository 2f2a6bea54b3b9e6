//! The turn state machine: marking cells, moving, capturing and castling.

use vstd::prelude::*;
use crate::board::{cell, counter_fits, in_bounds, on_board};
use crate::cells::listed;
use crate::game::{Game, Outcome};
use crate::piece::{Piece, Unit};

verus! {

impl Game {
    /// Tells whether the counter of every marked piece can still be raised,
    /// which is what `choose_target` asks for.
    pub fn can_count(&self) -> (r: bool)
        ensures
            r == self.state@.can_count(),
    {
        let marked = self.state.selected.to_vec();
        let mut i: usize = 0;
        while i < marked.len()
            invariant
                i <= marked@.len(),
                marked@.len() == self.state@.selected.len(),
                forall|j: int|
                    0 <= j < marked@.len() ==> cell(#[trigger] marked@[j])
                        == self.state@.selected[j],
                forall|j: int|
                    0 <= j < i ==> counter_fits(self.state.board@, #[trigger] self.state@.selected[j]),
            decreases marked@.len() - i,
        {
            match self.state.board.get(marked[i]) {
                Some(piece) => {
                    if piece.moved == u32::MAX {
                        assert(!counter_fits(self.state.board@, self.state@.selected[i as int]));
                        return false;
                    }
                },
                None => {},
            }
            i = i + 1;
        }
        true
    }

    /// Sends the piece on `from` to `to` and concludes the turn: the piece is
    /// relocated, the selection is emptied and, unless the game is in
    /// single-player mode, the other player is to move. Does nothing unless
    /// `from` holds a piece of the player to move and `to` lies on the grid.
    /// Tells whether the turn was concluded.
    pub fn move_turn(&mut self, from: (i32, i32), to: (i32, i32)) -> (done: bool)
        requires
            counter_fits(old(self).state.board@, cell(from)),
        ensures
            done == old(self).state@.can_move(cell(from), cell(to)),
            final(self).state@ == old(self).state@.after_move(cell(from), cell(to)),
            final(self).initial == old(self).initial,
            !done ==> *final(self) == *old(self),
    {
        if self.contains_ally(from) && on_board(to) {
            self.state.board.move_piece(from, to);
            if !self.state.single_player {
                self.state.turn = self.state.turn.opponent();
            }
            self.state.selected.clear();
            true
        } else {
            false
        }
    }

    /// Sends the piece on `from` against `to`: a move as `move_turn` makes
    /// it, if `to` is a target of that piece. Does nothing otherwise. Tells
    /// whether the turn was concluded.
    pub fn attack_move(&mut self, from: (i32, i32), to: (i32, i32)) -> (done: bool)
        requires
            counter_fits(old(self).state.board@, cell(from)),
        ensures
            done == (old(self).state@.legal(cell(from), cell(to)) && old(self).state@.can_move(
                cell(from),
                cell(to),
            )),
            final(self).state@ == old(self).state@.after_attack(cell(from), cell(to)),
            final(self).initial == old(self).initial,
            !done ==> *final(self) == *old(self),
    {
        let targets = self.moves(from);
        if listed(&targets, to) {
            self.move_turn(from, to)
        } else {
            false
        }
    }

    /// Where `piece`, standing on `at`, lands in a castle.
    fn projected(piece: &Piece, at: (i32, i32)) -> (to: (i32, i32))
        requires
            in_bounds(cell(at)),
        ensures
            cell(to) == match piece.unit {
                Unit::Rook => (at.0 + 2, at.1 as int),
                Unit::King => (at.0 - 2, at.1 as int),
                _ => cell(at),
            },
    {
        match piece.unit {
            Unit::Rook => (at.0 + 2, at.1),
            Unit::King => (at.0 - 2, at.1),
            _ => at,
        }
    }

    /// The landing cell of the piece on `at`, if that piece may take part in
    /// a castle.
    fn castle_step(&self, at: (i32, i32)) -> (r: Option<(i32, i32)>)
        ensures
            match r {
                Some(to) => self.state@.may_castle(cell(at)) && cell(to) == self.state@.landing(
                    cell(at),
                ),
                None => !self.state@.may_castle(cell(at)),
            },
    {
        match self.state.board.get(at) {
            Some(piece) => {
                let to = Self::projected(piece, at);
                if piece.moved > 0 || !on_board(to) || self.state.board.get(to).is_some() {
                    None
                } else {
                    Some(to)
                }
            },
            None => None,
        }
    }

    /// Castles if the state is ready for it: the first two marked cells hold
    /// a king and a rook, neither has moved, and the landing cell of each, two
    /// columns down for the king and two columns up for the rook, is an empty
    /// cell of the grid. Both pieces are then relocated, the first marked one
    /// first, and the turn is concluded. Tells whether it castled; if not,
    /// nothing has changed.
    pub fn castle_move(&mut self) -> (castled: bool)
        ensures
            castled == old(self).state@.castle_ready(),
            final(self).state@ == old(self).state@.after_castle(),
            final(self).initial == old(self).initial,
            !castled ==> *final(self) == *old(self),
    {
        let (first, second) = match (self.state.selected.nth(0), self.state.selected.nth(1)) {
            (Some(first), Some(second)) => (first, second),
            _ => {
                return false;
            },
        };
        let paired = match (self.state.board.get(first), self.state.board.get(second)) {
            (Some(a), Some(b)) => match (a.unit, b.unit) {
                (Unit::King, Unit::Rook) => true,
                (Unit::Rook, Unit::King) => true,
                _ => false,
            },
            _ => false,
        };
        if !paired {
            return false;
        }
        let (first_to, second_to) = match (self.castle_step(first), self.castle_step(second)) {
            (Some(first_to), Some(second_to)) => (first_to, second_to),
            _ => {
                return false;
            },
        };
        self.state.board.move_piece(first, first_to);
        self.state.board.move_piece(second, second_to);
        if !self.state.single_player {
            self.state.turn = self.state.turn.opponent();
        }
        self.state.selected.clear();
        true
    }

    /// Handles the choice of a target cell.
    ///
    /// With the multi-select modifier, a target that holds an ally is marked
    /// in addition. Without it: on an empty target, more than one marked cell
    /// asks for a castle, and a single marked piece moves there if the target
    /// lies on the grid and is one of its targets; on an enemy, a single
    /// marked piece captures it if it is one of its targets; an ally becomes
    /// the only marked cell. Everything else is ignored and changes nothing.
    pub fn choose_target(&mut self, target: (i32, i32), multi_select: bool) -> (outcome: Outcome)
        requires
            old(self).state@.can_count(),
        ensures
            outcome == old(self).state@.outcome(cell(target), multi_select),
            final(self).state@ == old(self).state@.after(cell(target), multi_select),
            final(self).initial == old(self).initial,
            outcome == Outcome::Ignored ==> *final(self) == *old(self),
    {
        if multi_select {
            if self.contains_ally(target) {
                self.state.selected.insert(target);
                return Outcome::Marked;
            }
            return Outcome::Ignored;
        }
        let chosen = match self.state.board.get(target) {
            Some(piece) => Some(piece.player),
            None => None,
        };
        let marked = self.state.selected.len();
        match chosen {
            None => {
                if marked > 1 {
                    if self.castle_move() {
                        Outcome::Castled
                    } else {
                        Outcome::Ignored
                    }
                } else {
                    match self.state.selected.nth(0) {
                        Some(from) => {
                            assert(counter_fits(self.state.board@, self.state@.selected[0]));
                            if self.attack_move(from, target) {
                                Outcome::Moved
                            } else {
                                Outcome::Ignored
                            }
                        },
                        None => Outcome::Ignored,
                    }
                }
            },
            Some(owner) => {
                if self.is_enemy(&owner) && marked == 1 {
                    match self.state.selected.nth(0) {
                        Some(from) => {
                            assert(counter_fits(self.state.board@, self.state@.selected[0]));
                            if self.attack_move(from, target) {
                                Outcome::Captured
                            } else {
                                Outcome::Ignored
                            }
                        },
                        None => Outcome::Ignored,
                    }
                } else if self.contains_ally(target) {
                    self.state.selected.clear();
                    self.state.selected.insert(target);
                    Outcome::Reselected
                } else {
                    Outcome::Ignored
                }
            },
        }
    }
}

} // verus!
