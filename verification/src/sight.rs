//! The ray-caster: it walks a list of candidate cells and stops behind the
//! first occupied one.

use vstd::prelude::*;
use crate::board::{cell, Board, Layout};
use crate::rules::Direction;

verus! {

/// None of the first `i` candidates is occupied.
pub open spec fn unblocked(layout: Layout, candidates: Seq<(i32, i32)>, i: int) -> bool {
    forall|j: int| 0 <= j < i ==> !layout.contains_key(cell(#[trigger] candidates[j]))
}

#[derive(Clone, Copy)]
struct Cursor {
    at: usize,
    stop: bool,
}

/// Hands out the candidates in order, up to and including the first one
/// that holds a piece. Candidates outside the grid count as empty.
pub struct LineOfSight<'a> {
    moves: Vec<(i32, i32)>,
    board: &'a Board,
    cursor: Cursor,
}

impl<'a> LineOfSight<'a> {
    #[verifier::type_invariant]
    spec fn consistent(self) -> bool {
        &&& self.cursor.at <= self.moves@.len()
        &&& self.cursor.stop == !unblocked(self.board@, self.moves@, self.cursor.at as int)
    }

    /// The candidates that the caster was made with.
    pub closed spec fn candidates(&self) -> Seq<(i32, i32)> {
        self.moves@
    }

    /// How many candidates have been handed out.
    pub closed spec fn yielded(&self) -> nat {
        self.cursor.at as nat
    }

    /// The board that is looked at.
    pub closed spec fn board(&self) -> Board {
        *self.board
    }

    /// A caster over `moves` on `board`, with nothing handed out yet.
    pub fn new(moves: Vec<(i32, i32)>, board: &'a Board) -> (caster: Self)
        ensures
            caster.candidates() == moves@,
            caster.yielded() == 0,
            caster.board() == *board,
    {
        LineOfSight { moves, board, cursor: Cursor { at: 0, stop: false } }
    }

    /// There is a candidate left to hand out, and none of those handed out
    /// so far holds a piece.
    pub open spec fn pending(&self) -> bool {
        &&& self.yielded() < self.candidates().len()
        &&& unblocked(self.board()@, self.candidates(), self.yielded() as int)
    }

    /// The next candidate, as long as there is one and none of those before
    /// it holds a piece. Once it has returned nothing it goes on doing so.
    pub fn next(&mut self) -> (r: Option<(i32, i32)>)
        ensures
            final(self).candidates() == old(self).candidates(),
            final(self).board() == old(self).board(),
            old(self).yielded() <= old(self).candidates().len(),
            r is Some <==> old(self).pending(),
            r is Some ==> r->0 == old(self).candidates()[old(self).yielded() as int],
            r is Some ==> final(self).yielded() == old(self).yielded() + 1,
            r is None ==> final(self).yielded() == old(self).yielded(),
    {
        proof {
            use_type_invariant(&*self);
        }
        if self.cursor.stop || self.cursor.at >= self.moves.len() {
            return None;
        }
        let at = self.cursor.at;
        let pos = self.moves[at];
        let stop = self.board.get(pos).is_some();
        proof {
            if stop {
                assert(!unblocked(self.board@, self.moves@, at + 1));
            } else {
                assert(unblocked(self.board@, self.moves@, at + 1));
            }
        }
        self.cursor = Cursor { at: at + 1, stop };
        Some(pos)
    }
}

/// The seven positions of the ray from `origin` in direction `d`, nearest
/// first.
pub fn ray(origin: (i32, i32), d: Direction) -> (cells: Vec<(i32, i32)>)
    requires
        i32::MIN + 7 <= origin.0 <= i32::MAX - 7,
        i32::MIN + 7 <= origin.1 <= i32::MAX - 7,
    ensures
        cells@.len() == 7,
        forall|i: int| 0 <= i < 7 ==> cell(#[trigger] cells@[i]) == d.along(cell(origin), i + 1),
{
    let mut cells: Vec<(i32, i32)> = Vec::new();
    let mut k: i32 = 1;
    while k < 8
        invariant
            1 <= k <= 8,
            i32::MIN + 7 <= origin.0 <= i32::MAX - 7,
            i32::MIN + 7 <= origin.1 <= i32::MAX - 7,
            cells@.len() == k - 1,
            forall|i: int| 0 <= i < k - 1 ==> cell(#[trigger] cells@[i]) == d.along(cell(origin), i + 1),
        decreases 8 - k,
    {
        cells.push(d.step(origin, k));
        k = k + 1;
    }
    cells
}

} // verus!
