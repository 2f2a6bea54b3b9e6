//! The move generator: the targets of a piece and what it sees.

use vstd::prelude::*;
use crate::board::{cell, in_bounds};
use crate::cells::{lemma_take_next, listed, record};
use crate::game::Game;
use crate::piece::{Piece, Player, Unit};
use crate::rules::{
    adjacent, candidate, holds_ally, holds_enemy, in_sight, knight_jump, legal_move, pawn_step,
    slides, slides_diagonal, slides_straight, span, Direction,
};
use crate::sight::{ray, unblocked, LineOfSight};

verus! {

impl Game {
    /// Tells whether `player` is the opponent of the player to move.
    pub fn is_enemy(&self, player: &Player) -> (r: bool)
        ensures
            r == (*player != self.state.turn),
    {
        self.state.turn != *player
    }

    /// Tells whether `pos` holds a piece of the opponent of the player to
    /// move. A position outside the grid holds nothing.
    pub fn contains_enemy(&self, pos: (i32, i32)) -> (r: bool)
        ensures
            r == holds_enemy(self.state.board@, self.state.turn, cell(pos)),
            !in_bounds(cell(pos)) ==> !r,
    {
        match self.state.board.get(pos) {
            Some(piece) => self.is_enemy(&piece.player),
            None => false,
        }
    }

    /// Tells whether `pos` holds a piece of the player to move. A position
    /// outside the grid holds nothing.
    pub fn contains_ally(&self, pos: (i32, i32)) -> (r: bool)
        ensures
            r == holds_ally(self.state.board@, self.state.turn, cell(pos)),
            !in_bounds(cell(pos)) ==> !r,
    {
        match self.state.board.get(pos) {
            Some(piece) => piece.player == self.state.turn,
            None => false,
        }
    }

    /// The targets of the piece on `pos`: the cells that it aims at and that
    /// hold no piece of the player to move. No target comes twice. An empty
    /// cell and a position outside the grid have no target.
    pub fn moves(&self, pos: (i32, i32)) -> (targets: Vec<(i32, i32)>)
        ensures
            targets@.no_duplicates(),
            forall|c: (i32, i32)|
                #[trigger] targets@.contains(c) <==> legal_move(
                    self.state.board@,
                    self.state.turn,
                    cell(pos),
                    cell(c),
                ),
    {
        let found = match self.state.board.get(pos) {
            Some(piece) => self.candidates(pos, *piece),
            None => Vec::new(),
        };
        self.without_allies(found)
    }

    /// What is seen from `pos`: the targets of the piece there and the eight
    /// cells around `pos`, whatever they hold. No cell comes twice.
    pub fn line_of_sight(&self, pos: (i32, i32)) -> (seen: Vec<(i32, i32)>)
        requires
            i32::MIN < pos.0 < i32::MAX,
            i32::MIN < pos.1 < i32::MAX,
        ensures
            seen@.no_duplicates(),
            forall|c: (i32, i32)|
                #[trigger] seen@.contains(c) <==> in_sight(
                    self.state.board@,
                    self.state.turn,
                    cell(pos),
                    cell(c),
                ),
    {
        let mut seen = self.moves(pos);
        let around = Self::neighbours(pos);
        let mut i: usize = 0;
        while i < around.len()
            invariant
                i <= around@.len(),
                seen@.no_duplicates(),
                forall|c: (i32, i32)|
                    #[trigger] around@.contains(c) <==> adjacent(cell(pos), cell(c)),
                forall|c: (i32, i32)|
                    #[trigger] seen@.contains(c) <==> legal_move(
                        self.state.board@,
                        self.state.turn,
                        cell(pos),
                        cell(c),
                    ) || around@.take(i as int).contains(c),
            decreases around@.len() - i,
        {
            let near = around[i];
            proof {
                lemma_take_next(around@, i as int);
            }
            if !listed(&seen, near) {
                record(&mut seen, near);
            }
            i = i + 1;
        }
        assert(around@.take(i as int) =~= around@);
        seen
    }

    /// The cells that `piece`, standing on `pos`, aims at.
    fn candidates(&self, pos: (i32, i32), piece: Piece) -> (found: Vec<(i32, i32)>)
        requires
            in_bounds(cell(pos)),
        ensures
            found@.no_duplicates(),
            forall|c: (i32, i32)|
                #[trigger] found@.contains(c) <==> candidate(
                    self.state.board@,
                    self.state.turn,
                    piece,
                    cell(pos),
                    cell(c),
                ),
    {
        match piece.unit {
            Unit::Pawn => self.pawn_targets(pos, piece),
            Unit::Knight => Self::knight_targets(pos),
            Unit::Rook => {
                let mut found: Vec<(i32, i32)> = Vec::new();
                self.cast_straight(pos, &mut found);
                found
            },
            Unit::Bishop => {
                let mut found: Vec<(i32, i32)> = Vec::new();
                self.cast_diagonal(pos, &mut found);
                found
            },
            Unit::Queen => {
                let mut found: Vec<(i32, i32)> = Vec::new();
                self.cast_straight(pos, &mut found);
                self.cast_diagonal(pos, &mut found);
                found
            },
            Unit::King => Self::neighbours(pos),
        }
    }

    /// The steps and captures of `pawn` on `pos`.
    fn pawn_targets(&self, pos: (i32, i32), pawn: Piece) -> (found: Vec<(i32, i32)>)
        requires
            in_bounds(cell(pos)),
        ensures
            found@.no_duplicates(),
            forall|c: (i32, i32)|
                #[trigger] found@.contains(c) <==> pawn_step(
                    self.state.board@,
                    self.state.turn,
                    pawn,
                    cell(pos),
                    cell(c),
                ),
    {
        let (x, y) = pos;
        let ahead: i32 = match pawn.player {
            Player::White => y + 1,
            Player::Black => y - 1,
        };
        let beyond: i32 = match pawn.player {
            Player::White => y + 2,
            Player::Black => y - 2,
        };
        let mut found: Vec<(i32, i32)> = Vec::new();
        if self.contains_enemy((x - 1, ahead)) {
            record(&mut found, (x - 1, ahead));
        }
        if self.contains_enemy((x + 1, ahead)) {
            record(&mut found, (x + 1, ahead));
        }
        if self.state.board.get((x, ahead)).is_none() {
            record(&mut found, (x, ahead));
            if pawn.moved == 0 && self.state.board.get((x, beyond)).is_none() {
                record(&mut found, (x, beyond));
            }
        }
        found
    }

    /// The eight jumps of a knight on `pos`.
    fn knight_targets(pos: (i32, i32)) -> (found: Vec<(i32, i32)>)
        requires
            in_bounds(cell(pos)),
        ensures
            found@.no_duplicates(),
            forall|c: (i32, i32)|
                #[trigger] found@.contains(c) <==> knight_jump(cell(pos), cell(c)),
    {
        let (x, y) = pos;
        let mut found: Vec<(i32, i32)> = Vec::new();
        record(&mut found, (x + 2, y - 1));
        record(&mut found, (x + 2, y + 1));
        record(&mut found, (x - 2, y - 1));
        record(&mut found, (x - 2, y + 1));
        record(&mut found, (x + 1, y + 2));
        record(&mut found, (x - 1, y + 2));
        record(&mut found, (x + 1, y - 2));
        record(&mut found, (x - 1, y - 2));
        found
    }

    /// The eight positions around `pos`.
    fn neighbours(pos: (i32, i32)) -> (found: Vec<(i32, i32)>)
        requires
            i32::MIN < pos.0 < i32::MAX,
            i32::MIN < pos.1 < i32::MAX,
        ensures
            found@.no_duplicates(),
            forall|c: (i32, i32)| #[trigger] found@.contains(c) <==> adjacent(cell(pos), cell(c)),
    {
        let (x, y) = pos;
        let mut found: Vec<(i32, i32)> = Vec::new();
        record(&mut found, (x + 1, y + 1));
        record(&mut found, (x - 1, y - 1));
        record(&mut found, (x + 1, y - 1));
        record(&mut found, (x - 1, y + 1));
        record(&mut found, (x + 1, y));
        record(&mut found, (x - 1, y));
        record(&mut found, (x, y + 1));
        record(&mut found, (x, y - 1));
        found
    }

    /// Appends what the four rays along the row and the column reach.
    fn cast_straight(&self, origin: (i32, i32), found: &mut Vec<(i32, i32)>)
        requires
            in_bounds(cell(origin)),
            old(found)@.len() == 0,
        ensures
            final(found)@.no_duplicates(),
            forall|c: (i32, i32)|
                #[trigger] final(found)@.contains(c) <==> slides_straight(
                    self.state.board@,
                    cell(origin),
                    cell(c),
                ),
    {
        self.cast(origin, Direction::East, found);
        self.cast(origin, Direction::West, found);
        self.cast(origin, Direction::North, found);
        self.cast(origin, Direction::South, found);
    }

    /// Appends what the four diagonal rays reach.
    fn cast_diagonal(&self, origin: (i32, i32), found: &mut Vec<(i32, i32)>)
        requires
            in_bounds(cell(origin)),
            old(found)@.no_duplicates(),
            forall|c: (i32, i32)|
                old(found)@.contains(c) ==> slides_straight(
                    self.state.board@,
                    cell(origin),
                    cell(c),
                ),
        ensures
            final(found)@.no_duplicates(),
            forall|c: (i32, i32)|
                #[trigger] final(found)@.contains(c) <==> old(found)@.contains(c)
                    || slides_diagonal(self.state.board@, cell(origin), cell(c)),
    {
        self.cast(origin, Direction::NorthEast, found);
        self.cast(origin, Direction::SouthWest, found);
        self.cast(origin, Direction::NorthWest, found);
        self.cast(origin, Direction::SouthEast, found);
    }

    /// Appends to `found` the cells that the ray from `origin` in direction
    /// `d` reaches.
    fn cast(&self, origin: (i32, i32), d: Direction, found: &mut Vec<(i32, i32)>)
        requires
            in_bounds(cell(origin)),
            old(found)@.no_duplicates(),
            forall|c: (i32, i32)|
                old(found)@.contains(c) ==> !slides(self.state.board@, cell(origin), d, cell(c)),
        ensures
            final(found)@.no_duplicates(),
            forall|c: (i32, i32)|
                #[trigger] final(found)@.contains(c) <==> old(found)@.contains(c) || slides(
                    self.state.board@,
                    cell(origin),
                    d,
                    cell(c),
                ),
    {
        let ghost layout = self.state.board@;
        let ghost from = cell(origin);
        let ghost before = found@;
        let cells = ray(origin, d);
        let ghost cands = cells@;
        let mut caster = LineOfSight::new(cells, &self.state.board);
        loop
            invariant
                caster.candidates() == cands,
                caster.board() == self.state.board,
                layout == self.state.board@,
                from == cell(origin),
                cands.len() == 7,
                forall|i: int| 0 <= i < 7 ==> cell(#[trigger] cands[i]) == d.along(from, i + 1),
                caster.yielded() <= 7,
                found@.no_duplicates(),
                forall|c: (i32, i32)| before.contains(c) ==> !slides(layout, from, d, cell(c)),
                forall|c: (i32, i32)|
                    #[trigger] found@.contains(c) <==> before.contains(c) || (slides(
                        layout,
                        from,
                        d,
                        cell(c),
                    ) && span(from, cell(c)) <= caster.yielded()),
            ensures
                found@.no_duplicates(),
                forall|c: (i32, i32)|
                    #[trigger] found@.contains(c) <==> before.contains(c) || slides(
                        layout,
                        from,
                        d,
                        cell(c),
                    ),
            decreases 7 - caster.yielded(),
        {
            let ghost n = caster.yielded() as int;
            match caster.next() {
                Some(pos) => {
                    proof {
                        assert(pos == cands[n]);
                        assert(cell(pos) == d.along(from, n + 1));
                        assert(span(from, cell(pos)) == n + 1);
                        assert forall|j: int| 1 <= j < n + 1 implies !layout.contains_key(
                            #[trigger] d.along(from, j),
                        ) by {
                            assert(cell(cands[j - 1]) == d.along(from, j));
                        }
                        assert(slides(layout, from, d, cell(pos)));
                    }
                    record(found, pos);
                    proof {
                        assert forall|c: (i32, i32)|
                            slides(layout, from, d, cell(c)) && span(from, cell(c)) == n
                                + 1 implies c == pos by {
                            assert(cell(c) == d.along(from, n + 1));
                        }
                    }
                },
                None => {
                    proof {
                        assert forall|c: (i32, i32)|
                            slides(layout, from, d, cell(c)) implies span(from, cell(c)) <= n by {
                            let k = span(from, cell(c));
                            if k > n {
                                assert(!unblocked(layout, cands, n));
                                let j = choose|j: int|
                                    0 <= j < n && layout.contains_key(cell(#[trigger] cands[j]));
                                assert(cell(cands[j]) == d.along(from, j + 1));
                                assert(!layout.contains_key(d.along(from, j + 1)));
                            }
                        }
                    }
                    break ;
                },
            }
        }
    }

    /// What is left of `found` once the cells held by allies are taken out.
    fn without_allies(&self, found: Vec<(i32, i32)>) -> (kept: Vec<(i32, i32)>)
        ensures
            found@.no_duplicates() ==> kept@.no_duplicates(),
            forall|c: (i32, i32)|
                #[trigger] kept@.contains(c) <==> found@.contains(c) && !holds_ally(
                    self.state.board@,
                    self.state.turn,
                    cell(c),
                ),
    {
        let mut kept: Vec<(i32, i32)> = Vec::new();
        let mut i: usize = 0;
        while i < found.len()
            invariant
                i <= found@.len(),
                found@.no_duplicates() ==> kept@.no_duplicates(),
                forall|c: (i32, i32)|
                    #[trigger] kept@.contains(c) <==> found@.take(i as int).contains(c)
                        && !holds_ally(self.state.board@, self.state.turn, cell(c)),
            decreases found@.len() - i,
        {
            let pos = found[i];
            proof {
                let seen = found@.take(i as int);
                lemma_take_next(found@, i as int);
                if found@.no_duplicates() && seen.contains(pos) {
                    let j = choose|j: int| 0 <= j < seen.len() && seen[j] == pos;
                    assert(found@[j] == found@[i as int]);
                }
            }
            if !self.contains_ally(pos) {
                record(&mut kept, pos);
            }
            i = i + 1;
        }
        assert(found@.take(i as int) =~= found@);
        kept
    }
}

} // verus!
