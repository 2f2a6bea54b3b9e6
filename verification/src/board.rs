//! The 8x8 grid and the primitive operations on it.

use vstd::prelude::*;
use crate::piece::{Piece, Player, Unit};

verus! {

/// A coordinate as the contracts see it: (column, row), unbounded.
pub type Cell = (int, int);

/// What a board holds: the occupied cells and the piece on each.
pub type Layout = Map<Cell, Piece>;

/// The coordinate that an executable position stands for.
pub open spec fn cell(pos: (i32, i32)) -> Cell {
    (pos.0 as int, pos.1 as int)
}

/// The cells of the grid: columns and rows 0 to 7.
pub open spec fn in_bounds(c: Cell) -> bool {
    0 <= c.0 <= 7 && 0 <= c.1 <= 7
}

/// A layout stores nothing outside the grid.
pub open spec fn within_grid(layout: Layout) -> bool {
    forall|c: Cell| layout.contains_key(c) ==> in_bounds(c)
}

/// The layout after the piece at `from`, if both cells lie on the grid and
/// `from` is occupied, has left `from` and landed on `to` with its counter
/// raised by one. Whatever stood on `to` is gone. In every other case the
/// layout is the one given.
pub open spec fn relocate(layout: Layout, from: Cell, to: Cell) -> Layout {
    if in_bounds(from) && in_bounds(to) && layout.contains_key(from) {
        layout.remove(from).insert(
            to,
            Piece {
                unit: layout[from].unit,
                player: layout[from].player,
                moved: (layout[from].moved + 1) as u32,
            },
        )
    } else {
        layout
    }
}

/// The piece at `from`, if a relocation would move one, can still count it.
pub open spec fn counter_fits(layout: Layout, from: Cell) -> bool {
    layout.contains_key(from) ==> layout[from].moved < u32::MAX
}

/// The unit that starts on column `x` of either back row.
pub open spec fn back_row_unit(x: int) -> Unit {
    if x == 0 || x == 7 {
        Unit::Rook
    } else if x == 1 || x == 6 {
        Unit::Knight
    } else if x == 2 || x == 5 {
        Unit::Bishop
    } else if x == 3 {
        Unit::Queen
    } else {
        Unit::King
    }
}

/// The conventional opening position: White on rows 0 and 1, Black on rows
/// 6 and 7, pawns on the inner rows, no piece moved yet.
pub open spec fn standard_layout() -> Layout {
    Map::new(
        |c: Cell| in_bounds(c) && (c.1 <= 1 || c.1 >= 6),
        |c: Cell|
            Piece {
                unit: if c.1 == 0 || c.1 == 7 {
                    back_row_unit(c.0)
                } else {
                    Unit::Pawn
                },
                player: if c.1 <= 1 {
                    Player::White
                } else {
                    Player::Black
                },
                moved: 0,
            },
    )
}

/// The position for trying out a castle: a White rook on (0, 0), a White
/// king on (3, 0), nothing else.
pub open spec fn castle_layout() -> Layout {
    Map::<Cell, Piece>::empty().insert(
        (0, 0),
        Piece { unit: Unit::Rook, player: Player::White, moved: 0 },
    ).insert((3, 0), Piece { unit: Unit::King, player: Player::White, moved: 0 })
}

/// The layout that a scenario name stands for, if it names one.
pub open spec fn scenario_layout(title: Seq<char>) -> Option<Layout> {
    if title == "castle"@ {
        Some(castle_layout())
    } else {
        None
    }
}

/// Tells whether a position names a cell of the grid.
pub fn on_board(pos: (i32, i32)) -> (r: bool)
    ensures
        r == in_bounds(cell(pos)),
{
    !(pos.0 < 0 || pos.1 < 0 || pos.0 > 7 || pos.1 > 7)
}

/// The grid, stored row by row.
#[derive(Debug, PartialEq, Eq)]
pub struct Board {
    cells: [Option<Piece>; 64],
}

impl View for Board {
    type V = Layout;

    closed spec fn view(&self) -> Layout {
        Map::new(
            |c: Cell| in_bounds(c) && self.cells@[c.1 * 8 + c.0] is Some,
            |c: Cell| self.cells@[c.1 * 8 + c.0]->0,
        )
    }
}

impl Board {
    /// A board never holds a piece outside the grid.
    pub proof fn lemma_within_grid(&self)
        ensures
            within_grid(self@),
    {
    }

    /// Two boards that hold the same layout are the same board.
    pub proof fn lemma_layout_determines_board(&self, other: &Board)
        requires
            self@ == other@,
        ensures
            *self == *other,
    {
        assert forall|i: int| 0 <= i < 64 implies self.cells@[i] == other.cells@[i] by {
            let c: Cell = (i % 8, i / 8);
            assert(in_bounds(c) && c.1 * 8 + c.0 == i);
            assert(self@.contains_key(c) == (self.cells@[i] is Some));
            assert(other@.contains_key(c) == (other.cells@[i] is Some));
            if self@.contains_key(c) {
                assert(self@[c] == self.cells@[i]->0);
                assert(other@[c] == other.cells@[i]->0);
            }
        }
        assert(self.cells =~= other.cells);
    }

    /// The standard opening position.
    pub fn new() -> (board: Board)
        ensures
            board@ == standard_layout(),
    {
        let mut board = Board::default();
        let mut x: i32 = 0;
        while x < 8
            invariant
                0 <= x <= 8,
                forall|c: Cell|
                    board@.contains_key(c) <==> standard_layout().contains_key(c) && c.0 < x,
                forall|c: Cell| board@.contains_key(c) ==> board@[c] == standard_layout()[c],
            decreases 8 - x,
        {
            let unit = Self::back_row(x);
            board.set((x, 0), Piece { unit, player: Player::White, moved: 0 });
            board.set((x, 1), Piece { unit: Unit::Pawn, player: Player::White, moved: 0 });
            board.set((x, 6), Piece { unit: Unit::Pawn, player: Player::Black, moved: 0 });
            board.set((x, 7), Piece { unit, player: Player::Black, moved: 0 });
            x = x + 1;
        }
        assert(board@ =~= standard_layout());
        board
    }

    fn back_row(x: i32) -> (unit: Unit)
        ensures
            unit == back_row_unit(x as int),
    {
        if x == 0 || x == 7 {
            Unit::Rook
        } else if x == 1 || x == 6 {
            Unit::Knight
        } else if x == 2 || x == 5 {
            Unit::Bishop
        } else if x == 3 {
            Unit::Queen
        } else {
            Unit::King
        }
    }

    /// The board of the scenario called `title`, or nothing when no scenario
    /// has that name.
    pub fn scenario(title: &str) -> (r: Option<Board>)
        ensures
            match r {
                Some(board) => scenario_layout(title@) == Some(board@),
                None => scenario_layout(title@) is None,
            },
    {
        if title.to_owned() == "castle".to_owned() {
            Some(Board::castle_test())
        } else {
            None
        }
    }

    /// The board for trying out a castle.
    pub fn castle_test() -> (board: Board)
        ensures
            board@ == castle_layout(),
    {
        let mut board = Board::default();
        board.set((0, 0), Piece { unit: Unit::Rook, player: Player::White, moved: 0 });
        board.set((3, 0), Piece { unit: Unit::King, player: Player::White, moved: 0 });
        board
    }

    /// A walk over every cell of the board, row 0 first and column 0 first
    /// within a row.
    pub fn iter(&self) -> (walk: BoardIter<'_>)
        ensures
            walk.served() == 0,
            walk.board() == *self,
    {
        BoardIter { pos: None, board: self }
    }

    fn slot(pos: (i32, i32)) -> (i: usize)
        requires
            in_bounds(cell(pos)),
        ensures
            i == pos.1 * 8 + pos.0,
            i < 64,
    {
        (pos.1 as usize) * 8 + (pos.0 as usize)
    }

    /// The piece at `pos`, or nothing when the cell is empty or `pos` lies
    /// outside the grid.
    pub fn get(&self, pos: (i32, i32)) -> (r: Option<&Piece>)
        ensures
            !in_bounds(cell(pos)) ==> r is None,
            match r {
                Some(p) => self@.contains_key(cell(pos)) && *p == self@[cell(pos)],
                None => !self@.contains_key(cell(pos)),
            },
    {
        if !on_board(pos) {
            None
        } else {
            self.cells[Self::slot(pos)].as_ref()
        }
    }

    /// Puts `p` on `pos`, replacing what stood there. Does nothing when
    /// `pos` lies outside the grid.
    pub fn set(&mut self, pos: (i32, i32), p: Piece)
        ensures
            in_bounds(cell(pos)) ==> final(self)@ == old(self)@.insert(cell(pos), p),
            !in_bounds(cell(pos)) ==> *final(self) == *old(self),
    {
        if on_board(pos) {
            let i = Self::slot(pos);
            self.cells[i] = Some(p);
            assert(self@ =~= old(self)@.insert(cell(pos), p));
        }
    }

    /// Moves the piece at `from` to `to` and counts the move on the piece.
    /// Does nothing when either position lies outside the grid or `from` is
    /// empty.
    pub fn move_piece(&mut self, from: (i32, i32), to: (i32, i32))
        requires
            in_bounds(cell(from)) && in_bounds(cell(to)) ==> counter_fits(old(self)@, cell(from)),
        ensures
            final(self)@ == relocate(old(self)@, cell(from), cell(to)),
            !in_bounds(cell(from)) || !in_bounds(cell(to)) ==> *final(self) == *old(self),
            !old(self)@.contains_key(cell(from)) ==> *final(self) == *old(self),
    {
        if !on_board(from) || !on_board(to) {
            return ;
        }
        let i = Self::slot(from);
        match self.cells[i] {
            Some(piece) => {
                self.cells[i] = None;
                assert(self@ =~= old(self)@.remove(cell(from)));
                self.set(to, Piece { unit: piece.unit, player: piece.player, moved: piece.moved + 1 });
            },
            None => {},
        }
    }
}

/// A cell of the grid together with what stands on it.
#[derive(Debug)]
pub struct Position<'a> {
    pub piece: Option<&'a Piece>,
    pub x: usize,
    pub y: usize,
}

impl<'a> Position<'a> {
    /// This is the cell (`x`, `y`) as `board` holds it.
    pub open spec fn shows(&self, board: Board) -> bool {
        let c: Cell = (self.x as int, self.y as int);
        match self.piece {
            Some(p) => board@.contains_key(c) && *p == board@[c],
            None => !board@.contains_key(c),
        }
    }
}

/// A walk over the cells of a board in row-major order.
pub struct BoardIter<'a> {
    pos: Option<(usize, usize)>,
    board: &'a Board,
}

impl<'a> BoardIter<'a> {
    #[verifier::type_invariant]
    spec fn in_range(self) -> bool {
        match self.pos {
            Some((x, y)) => x <= 7 && y <= 8,
            None => true,
        }
    }

    /// How many cells the walk has handed out so far.
    pub closed spec fn served(&self) -> nat {
        match self.pos {
            None => 0,
            Some((x, y)) => if y > 7 {
                64
            } else {
                (y * 8 + x + 1) as nat
            },
        }
    }

    /// The board that is walked.
    pub closed spec fn board(&self) -> Board {
        *self.board
    }

    /// The next cell of the walk: cell number `n` is column `n % 8` of row
    /// `n / 8`. After the 64th cell the walk is over and stays over.
    pub fn next(&mut self) -> (r: Option<Position<'a>>)
        ensures
            final(self).board() == old(self).board(),
            old(self).served() <= 64,
            old(self).served() < 64 ==> final(self).served() == old(self).served() + 1,
            old(self).served() == 64 ==> final(self).served() == 64,
            match r {
                Some(p) => old(self).served() < 64 && p.x == old(self).served() % 8 && p.y
                    == old(self).served() / 8 && p.shows(old(self).board()),
                None => old(self).served() == 64,
            },
    {
        proof {
            use_type_invariant(&*self);
        }
        let board: &'a Board = self.board;
        let (x, y): (usize, usize) = match self.pos {
            None => (0, 0),
            Some((x, y)) => {
                if y > 7 {
                    return None;
                }
                if x + 1 > 7 {
                    (0, y + 1)
                } else {
                    (x + 1, y)
                }
            },
        };
        self.pos = Some((x, y));
        if y > 7 {
            return None;
        }
        let piece = board.get((x as i32, y as i32));
        Some(Position { piece, x, y })
    }
}

impl Default for Board {
    /// The empty board.
    fn default() -> (board: Board)
        ensures
            board@ == Map::<Cell, Piece>::empty(),
    {
        let vacant: Option<Piece> = None;
        let cells: [Option<Piece>; 64] = [vacant;64];
        assert(forall|i: int| 0 <= i < 64 ==> cells@[i] is None) by {
            broadcast use vstd::array::group_array_axioms;
            assert(cells == vstd::array::spec_array_fill_for_copy_type::<Option<Piece>, 64>(vacant));
        }
        let board = Board { cells };
        assert(board@ =~= Map::<Cell, Piece>::empty());
        board
    }
}

impl Clone for Board {
    fn clone(&self) -> (board: Board)
        ensures
            board == *self,
    {
        Board { cells: self.cells }
    }
}

} // verus!
