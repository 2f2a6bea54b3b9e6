//! The cells that the player to move has marked.

use vstd::prelude::*;
use crate::board::{cell, Cell};

verus! {

/// A set of positions that remembers the order in which they were marked.
/// No position is held twice.
#[derive(Debug)]
pub struct Selection {
    cells: Vec<(i32, i32)>,
}

impl View for Selection {
    type V = Seq<Cell>;

    /// The marked cells, first marked first.
    closed spec fn view(&self) -> Seq<Cell> {
        Seq::new(self.cells@.len(), |i: int| cell(self.cells@[i]))
    }
}

impl Selection {
    #[verifier::type_invariant]
    spec fn distinct(self) -> bool {
        self.cells@.no_duplicates()
    }

    /// The empty selection.
    pub fn new() -> (selection: Selection)
        ensures
            selection@ == Seq::<Cell>::empty(),
    {
        let selection = Selection { cells: Vec::new() };
        assert(selection@ =~= Seq::<Cell>::empty());
        selection
    }

    /// The number of marked cells.
    pub fn len(&self) -> (n: usize)
        ensures
            n == self@.len(),
            self@.no_duplicates(),
    {
        proof {
            use_type_invariant(self);
        }
        self.cells.len()
    }

    /// Tells whether `pos` is marked.
    pub fn contains(&self, pos: (i32, i32)) -> (found: bool)
        ensures
            found == self@.contains(cell(pos)),
    {
        let mut i: usize = 0;
        while i < self.cells.len()
            invariant
                i <= self.cells@.len(),
                forall|j: int| 0 <= j < i ==> self@[j] != cell(pos),
            decreases self.cells@.len() - i,
        {
            let held = self.cells[i];
            if held.0 == pos.0 && held.1 == pos.1 {
                assert(self@[i as int] == cell(pos));
                return true;
            }
            i = i + 1;
        }
        false
    }

    /// Marks `pos`, unless it is marked already; tells whether it was added.
    /// The cells marked before keep their places.
    pub fn insert(&mut self, pos: (i32, i32)) -> (added: bool)
        ensures
            added == !old(self)@.contains(cell(pos)),
            added ==> final(self)@ == old(self)@.push(cell(pos)),
            !added ==> *final(self) == *old(self),
            final(self)@.no_duplicates(),
    {
        proof {
            use_type_invariant(&*self);
        }
        if self.contains(pos) {
            false
        } else {
            assert forall|j: int| 0 <= j < self.cells@.len() implies self.cells@[j] != pos by {
                assert(self@[j] == cell(self.cells@[j]));
            }
            let mut cells: Vec<(i32, i32)> = Vec::new();
            core::mem::swap(&mut self.cells, &mut cells);
            cells.push(pos);
            self.cells = cells;
            assert(self@ =~= old(self)@.push(cell(pos)));
            true
        }
    }

    /// Unmarks every cell.
    pub fn clear(&mut self)
        ensures
            final(self)@ == Seq::<Cell>::empty(),
    {
        self.cells = Vec::new();
        assert(self@ =~= Seq::<Cell>::empty());
    }

    /// The cell that was marked `i`-th, counting from 0, if there are that
    /// many.
    pub fn nth(&self, i: usize) -> (r: Option<(i32, i32)>)
        ensures
            match r {
                Some(pos) => i < self@.len() && cell(pos) == self@[i as int],
                None => i >= self@.len(),
            },
    {
        if i < self.cells.len() {
            Some(self.cells[i])
        } else {
            None
        }
    }

    /// The marked positions, first marked first.
    pub fn to_vec(&self) -> (marked: Vec<(i32, i32)>)
        ensures
            marked@.len() == self@.len(),
            forall|i: int| 0 <= i < marked@.len() ==> cell(#[trigger] marked@[i]) == self@[i],
    {
        let mut marked: Vec<(i32, i32)> = Vec::new();
        let mut i: usize = 0;
        while i < self.cells.len()
            invariant
                i <= self.cells@.len(),
                marked@.len() == i,
                forall|j: int| 0 <= j < i ==> marked@[j] == self.cells@[j],
            decreases self.cells@.len() - i,
        {
            marked.push(self.cells[i]);
            i = i + 1;
        }
        marked
    }
}

impl Clone for Selection {
    fn clone(&self) -> (copy: Selection)
        ensures
            copy@ == self@,
    {
        proof {
            use_type_invariant(self);
        }
        let cells = self.to_vec();
        assert(cells@ =~= self.cells@);
        let copy = Selection { cells };
        assert(copy@ =~= self@);
        copy
    }
}

} // verus!
