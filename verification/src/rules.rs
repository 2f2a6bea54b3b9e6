//! What each unit may do, stated over layouts.
//!
//! Allies and enemies are told apart by the player to move. Targets are not
//! confined to the grid: a cell outside it counts as empty, so a knight at
//! the edge still has its eight targets and a ray runs its full seven steps
//! over empty cells.

use vstd::prelude::*;
use crate::board::{cell, Cell, Layout};
use crate::piece::{Piece, Player, Unit};

verus! {

/// The eight directions of a ray. North is toward higher rows, east toward
/// higher columns.
#[derive(Clone, Copy, Debug, PartialEq, Eq, Structural)]
pub enum Direction {
    East,
    West,
    North,
    South,
    NorthEast,
    SouthWest,
    NorthWest,
    SouthEast,
}

impl Direction {
    /// The cell `k` steps from `from` in this direction.
    pub open spec fn along(self, from: Cell, k: int) -> Cell {
        match self {
            Direction::East => (from.0 + k, from.1),
            Direction::West => (from.0 - k, from.1),
            Direction::North => (from.0, from.1 + k),
            Direction::South => (from.0, from.1 - k),
            Direction::NorthEast => (from.0 + k, from.1 + k),
            Direction::SouthWest => (from.0 - k, from.1 - k),
            Direction::NorthWest => (from.0 - k, from.1 + k),
            Direction::SouthEast => (from.0 + k, from.1 - k),
        }
    }

    /// The position `k` steps from `origin` in this direction.
    pub fn step(self, origin: (i32, i32), k: i32) -> (pos: (i32, i32))
        requires
            0 <= k,
            i32::MIN <= origin.0 - k && origin.0 + k <= i32::MAX,
            i32::MIN <= origin.1 - k && origin.1 + k <= i32::MAX,
        ensures
            cell(pos) == self.along(cell(origin), k as int),
    {
        let (x, y) = origin;
        match self {
            Direction::East => (x + k, y),
            Direction::West => (x - k, y),
            Direction::North => (x, y + k),
            Direction::South => (x, y - k),
            Direction::NorthEast => (x + k, y + k),
            Direction::SouthWest => (x - k, y - k),
            Direction::NorthWest => (x - k, y + k),
            Direction::SouthEast => (x + k, y - k),
        }
    }
}

/// The cell holds a piece of the player to move.
pub open spec fn holds_ally(layout: Layout, turn: Player, c: Cell) -> bool {
    layout.contains_key(c) && layout[c].player == turn
}

/// The cell holds a piece of the other player.
pub open spec fn holds_enemy(layout: Layout, turn: Player, c: Cell) -> bool {
    layout.contains_key(c) && layout[c].player != turn
}

/// The larger of the column and row distances between two cells.
pub open spec fn span(from: Cell, to: Cell) -> int {
    let dx = if to.0 >= from.0 {
        to.0 - from.0
    } else {
        from.0 - to.0
    };
    let dy = if to.1 >= from.1 {
        to.1 - from.1
    } else {
        from.1 - to.1
    };
    if dx >= dy {
        dx
    } else {
        dy
    }
}

/// The two cells are different and touch, by a side or by a corner.
pub open spec fn adjacent(from: Cell, to: Cell) -> bool {
    span(from, to) == 1
}

/// `to` is one of the eight L-shaped jumps away from `from`.
pub open spec fn knight_jump(from: Cell, to: Cell) -> bool {
    let dx = to.0 - from.0;
    let dy = to.1 - from.1;
    ||| (dx == 1 || dx == -1) && (dy == 2 || dy == -2)
    ||| (dx == 2 || dx == -2) && (dy == 1 || dy == -1)
}

/// The first `k - 1` cells of the ray from `from` in direction `d` are empty.
pub open spec fn clear_run(layout: Layout, from: Cell, d: Direction, k: int) -> bool {
    forall|j: int| 1 <= j < k ==> !layout.contains_key(#[trigger] d.along(from, j))
}

/// A ray from `from` in direction `d` reaches `to`: `to` lies one to seven
/// steps along it, and no piece stands between the two.
pub open spec fn slides(layout: Layout, from: Cell, d: Direction, to: Cell) -> bool {
    let k = span(from, to);
    1 <= k <= 7 && to == d.along(from, k) && clear_run(layout, from, d, k)
}

/// A ray along a row or a column reaches `to`.
pub open spec fn slides_straight(layout: Layout, from: Cell, to: Cell) -> bool {
    ||| slides(layout, from, Direction::East, to)
    ||| slides(layout, from, Direction::West, to)
    ||| slides(layout, from, Direction::North, to)
    ||| slides(layout, from, Direction::South, to)
}

/// A diagonal ray reaches `to`.
pub open spec fn slides_diagonal(layout: Layout, from: Cell, to: Cell) -> bool {
    ||| slides(layout, from, Direction::NorthEast, to)
    ||| slides(layout, from, Direction::SouthWest, to)
    ||| slides(layout, from, Direction::NorthWest, to)
    ||| slides(layout, from, Direction::SouthEast, to)
}

/// What a pawn may do: capture an enemy on either forward diagonal, step
/// onto the empty cell ahead, or, if it has never moved, step two cells ahead
/// over an empty cell onto an empty cell.
pub open spec fn pawn_step(layout: Layout, turn: Player, pawn: Piece, from: Cell, to: Cell) -> bool {
    let ahead = from.1 + pawn.player.forward();
    ||| to == (from.0 - 1, ahead) && holds_enemy(layout, turn, to)
    ||| to == (from.0 + 1, ahead) && holds_enemy(layout, turn, to)
    ||| to == (from.0, ahead) && !layout.contains_key(to)
    ||| to == (from.0, ahead + pawn.player.forward()) && pawn.moved == 0 && !layout.contains_key(
        (from.0, ahead),
    ) && !layout.contains_key(to)
}

/// `to` is a cell that `piece`, standing on `from`, aims at, before cells
/// held by allies are taken out.
pub open spec fn candidate(layout: Layout, turn: Player, piece: Piece, from: Cell, to: Cell) -> bool {
    match piece.unit {
        Unit::Pawn => pawn_step(layout, turn, piece, from, to),
        Unit::Knight => knight_jump(from, to),
        Unit::Rook => slides_straight(layout, from, to),
        Unit::Bishop => slides_diagonal(layout, from, to),
        Unit::Queen => slides_straight(layout, from, to) || slides_diagonal(layout, from, to),
        Unit::King => adjacent(from, to),
    }
}

/// `to` is a target of the piece on `from`: a cell that the piece aims at
/// and that holds no ally. An empty `from` has no target.
pub open spec fn legal_move(layout: Layout, turn: Player, from: Cell, to: Cell) -> bool {
    layout.contains_key(from) && candidate(layout, turn, layout[from], from, to) && !holds_ally(
        layout,
        turn,
        to,
    )
}

/// `to` is seen from `from`: it is a target of the piece there, or it
/// touches `from`, whatever stands on either.
pub open spec fn in_sight(layout: Layout, turn: Player, from: Cell, to: Cell) -> bool {
    legal_move(layout, turn, from, to) || adjacent(from, to)
}

/// A cell that a ray reaches lies on that ray only.
pub proof fn lemma_rays_apart(layout: Layout, from: Cell, d: Direction, e: Direction, to: Cell)
    requires
        slides(layout, from, d, to),
        d != e,
    ensures
        !slides(layout, from, e, to),
{
}

/// A ray stops at the first piece it meets: once a cell of the ray is
/// occupied, no cell further along is reached.
pub proof fn lemma_ray_stops_at_first_piece(
    layout: Layout,
    from: Cell,
    d: Direction,
    j: int,
    k: int,
)
    requires
        1 <= j < k,
        layout.contains_key(d.along(from, j)),
    ensures
        !slides(layout, from, d, d.along(from, k)),
{
    if slides(layout, from, d, d.along(from, k)) {
        assert(span(from, d.along(from, k)) == k);
    }
}

/// A pawn that has moved never steps two cells: every target lies on the
/// row directly ahead of it.
pub proof fn lemma_moved_pawn_steps_once(layout: Layout, turn: Player, from: Cell, to: Cell)
    requires
        layout.contains_key(from),
        layout[from].unit == Unit::Pawn,
        layout[from].moved > 0,
        legal_move(layout, turn, from, to),
    ensures
        to.1 == from.1 + layout[from].player.forward(),
{
}

/// A target never holds a piece of the player to move, and an occupied
/// target holds an enemy.
pub proof fn lemma_targets_hold_no_ally(layout: Layout, turn: Player, from: Cell, to: Cell)
    requires
        legal_move(layout, turn, from, to),
    ensures
        !holds_ally(layout, turn, to),
        layout.contains_key(to) ==> holds_enemy(layout, turn, to),
{
}

} // verus!
