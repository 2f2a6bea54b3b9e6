//! The fog of war: which cells the player to move can see.

use vstd::prelude::*;
use crate::board::{cell, in_bounds, on_board, Cell};
use crate::game::{Game, StateView};
use crate::rules::in_sight;

verus! {

/// Whether a cell is hidden or in view.
#[derive(Clone, Copy, Debug, PartialEq, Eq, Structural)]
pub enum Visibility {
    Fog,
    Clear,
}

/// One `Visibility` for each cell of the grid.
#[derive(Debug)]
pub struct FogMask {
    cells: [Visibility; 64],
}

impl View for FogMask {
    type V = Set<Cell>;

    /// The cells in view.
    closed spec fn view(&self) -> Set<Cell> {
        Set::new(|c: Cell| in_bounds(c) && self.cells@[c.1 * 8 + c.0] == Visibility::Clear)
    }
}

impl FogMask {
    /// Only cells of the grid are ever in view.
    pub proof fn lemma_within_grid(&self)
        ensures
            forall|c: Cell| self@.contains(c) ==> in_bounds(c),
    {
    }

    /// The mask with every cell hidden.
    pub fn new() -> (mask: FogMask)
        ensures
            mask@ == Set::<Cell>::empty(),
    {
        let hidden = Visibility::Fog;
        let cells: [Visibility; 64] = [hidden;64];
        assert(forall|i: int| 0 <= i < 64 ==> cells@[i] == Visibility::Fog) by {
            broadcast use vstd::array::group_array_axioms;

            assert(cells == vstd::array::spec_array_fill_for_copy_type::<Visibility, 64>(hidden));
        }
        let mask = FogMask { cells };
        assert(mask@ =~= Set::<Cell>::empty());
        mask
    }

    /// Brings `pos` into view. Does nothing when `pos` lies outside the grid.
    pub fn uncover(&mut self, pos: (i32, i32))
        ensures
            in_bounds(cell(pos)) ==> final(self)@ == old(self)@.insert(cell(pos)),
            !in_bounds(cell(pos)) ==> *final(self) == *old(self),
    {
        if on_board(pos) {
            let i = (pos.1 as usize) * 8 + (pos.0 as usize);
            self.cells[i] = Visibility::Clear;
            assert(self@ =~= old(self)@.insert(cell(pos)));
        }
    }

    /// Whether `pos` is hidden or in view. A position outside the grid is
    /// hidden.
    pub fn get(&self, pos: (i32, i32)) -> (r: Visibility)
        ensures
            r == Visibility::Clear <==> self@.contains(cell(pos)),
    {
        if on_board(pos) {
            self.cells[(pos.1 as usize) * 8 + (pos.0 as usize)]
        } else {
            Visibility::Fog
        }
    }
}

/// The `n`-th cell of the grid in row-major order.
spec fn nth_cell(n: int) -> Cell {
    (n % 8, n / 8)
}

/// Some piece of the player to move, standing on one of the first `n` cells
/// in row-major order, is on `c` or has `c` in sight.
spec fn lit_from(view: StateView, n: int, c: Cell) -> bool {
    exists|p: Cell|
        in_bounds(p) && p.1 * 8 + p.0 < n && #[trigger] view.ally(p) && (c == p || in_sight(
            view.board,
            view.turn,
            p,
            c,
        ))
}

/// Taking one more cell into account adds what is lit from that cell.
proof fn lemma_lit_step(view: StateView, n: int, c: Cell)
    requires
        0 <= n < 64,
    ensures
        lit_from(view, n + 1, c) <==> lit_from(view, n, c) || (view.ally(nth_cell(n)) && (c
            == nth_cell(n) || in_sight(view.board, view.turn, nth_cell(n), c))),
{
    let here = nth_cell(n);
    assert(in_bounds(here) && here.1 * 8 + here.0 == n);
    if lit_from(view, n + 1, c) {
        let p = choose|p: Cell|
            in_bounds(p) && p.1 * 8 + p.0 < n + 1 && #[trigger] view.ally(p) && (c == p
                || in_sight(view.board, view.turn, p, c));
        if p.1 * 8 + p.0 < n {
            assert(lit_from(view, n, c));
        } else {
            assert(p == here);
        }
    }
    if lit_from(view, n, c) {
        let p = choose|p: Cell|
            in_bounds(p) && p.1 * 8 + p.0 < n && #[trigger] view.ally(p) && (c == p || in_sight(
                view.board,
                view.turn,
                p,
                c,
            ));
        assert(lit_from(view, n + 1, c));
    }
    if view.ally(here) && (c == here || in_sight(view.board, view.turn, here, c)) {
        assert(lit_from(view, n + 1, c));
    }
}

/// Once all 64 cells are taken into account, the lit cells of the grid are
/// the visible ones.
proof fn lemma_lit_all(view: StateView, c: Cell)
    requires
        crate::board::within_grid(view.board),
    ensures
        in_bounds(c) && lit_from(view, 64, c) <==> view.visible().contains(c),
{
    if lit_from(view, 64, c) {
        let p = choose|p: Cell|
            in_bounds(p) && p.1 * 8 + p.0 < 64 && #[trigger] view.ally(p) && (c == p || in_sight(
                view.board,
                view.turn,
                p,
                c,
            ));
        assert(view.ally(p) && (c == p || in_sight(view.board, view.turn, p, c)));
    }
    if view.visible().contains(c) {
        let p = choose|p: Cell|
            #[trigger] view.ally(p) && (c == p || in_sight(view.board, view.turn, p, c));
        assert(in_bounds(p));
        assert(lit_from(view, 64, c));
    }
}

impl Game {
    /// Brings into view the cell `at` and what is seen from it.
    fn uncover_sight(&self, at: (i32, i32), mask: &mut FogMask)
        requires
            in_bounds(cell(at)),
        ensures
            forall|c: Cell|
                final(mask)@.contains(c) <==> old(mask)@.contains(c) || (in_bounds(c) && (c
                    == cell(at) || in_sight(self.state.board@, self.state.turn, cell(at), c))),
    {
        let ghost before = mask@;
        let seen = self.line_of_sight(at);
        mask.uncover(at);
        let mut i: usize = 0;
        while i < seen.len()
            invariant
                i <= seen@.len(),
                forall|c: Cell|
                    mask@.contains(c) <==> before.contains(c) || c == cell(at) || (in_bounds(c)
                        && exists|j: int| 0 <= j < i && cell(#[trigger] seen@[j]) == c),
            decreases seen@.len() - i,
        {
            mask.uncover(seen[i]);
            i = i + 1;
        }
        proof {
            assert forall|c: Cell| in_bounds(c) implies ((exists|j: int|
                0 <= j < i && cell(#[trigger] seen@[j]) == c) <==> seen@.contains(
                (c.0 as i32, c.1 as i32),
            )) by {
                let q = (c.0 as i32, c.1 as i32);
                assert(cell(q) == c);
                if seen@.contains(q) {
                    let j = choose|j: int| 0 <= j < seen@.len() && seen@[j] == q;
                    assert(cell(seen@[j]) == c);
                }
                if exists|j: int| 0 <= j < i && cell(#[trigger] seen@[j]) == c {
                    let j = choose|j: int| 0 <= j < i && cell(#[trigger] seen@[j]) == c;
                    assert(seen@[j] == q);
                }
            }
            assert forall|c: Cell|
                mask@.contains(c) <==> before.contains(c) || (in_bounds(c) && (c == cell(at)
                    || in_sight(self.state.board@, self.state.turn, cell(at), c))) by {
                if in_bounds(c) {
                    let q = (c.0 as i32, c.1 as i32);
                    assert(cell(q) == c);
                }
            }
        }
    }

    /// The fog mask of the player to move, worked out afresh: a cell of the
    /// grid is in view when it holds one of that player's pieces or is in
    /// sight of one; every other cell is hidden.
    pub fn visibility(&self) -> (mask: FogMask)
        ensures
            mask@ == self.state@.visible(),
    {
        let ghost view = self.state@;
        let mut mask = FogMask::new();
        let mut walk = self.state.board.iter();
        loop
            invariant
                view == self.state@,
                walk.board() == self.state.board,
                walk.served() <= 64,
                forall|c: Cell|
                    mask@.contains(c) <==> in_bounds(c) && lit_from(view, walk.served() as int, c),
            ensures
                forall|c: Cell| mask@.contains(c) <==> in_bounds(c) && lit_from(view, 64, c),
            decreases 64 - walk.served(),
        {
            let ghost n = walk.served() as int;
            let ghost before = mask@;
            match walk.next() {
                None => {
                    break ;
                },
                Some(position) => {
                    let ghost here = nth_cell(n);
                    let owned = match position.piece {
                        Some(piece) => !self.is_enemy(&piece.player),
                        None => false,
                    };
                    assert(owned == view.ally(here));
                    if owned {
                        self.uncover_sight((position.x as i32, position.y as i32), &mut mask);
                    }
                    proof {
                        assert forall|c: Cell|
                            mask@.contains(c) <==> in_bounds(c) && lit_from(view, n + 1, c) by {
                            lemma_lit_step(view, n, c);
                        }
                    }
                },
            }
        }
        proof {
            self.state.board.lemma_within_grid();
            assert forall|c: Cell| mask@.contains(c) <==> view.visible().contains(c) by {
                lemma_lit_all(view, c);
            }
            assert(mask@ =~= view.visible());
        }
        mask
    }
}

} // verus!
