//! The 5x5 board: a flattened 25-cell grid of optional occupants.

use vstd::prelude::*;

use crate::coord::Coord;
use crate::coord::coord_index;
use crate::kinds::Profession;
use crate::kinds::Side;

verus! {

/// An occupant of a square: a piece kind and the side that owns it.
pub type Occupant = (Profession, Side);

/// The 5x5 board, stored as 25 cells in row-major order; the cell of a
/// square `(col, row)` sits at `coord_index((col, row))`.
#[derive(Debug, Clone, PartialEq, Eq)]
pub struct Board {
    cells: Vec<Option<Occupant>>,
}

impl View for Board {
    type V = Seq<Option<Occupant>>;

    closed spec fn view(&self) -> Seq<Option<Occupant>> {
        self.cells@
    }
}

/// A well-formed board holds exactly 25 cells.
pub open spec fn board_wf(b: Seq<Option<Occupant>>) -> bool {
    b.len() == 25
}

/// The occupant of a square in a board model.
pub open spec fn board_at(b: Seq<Option<Occupant>>, c: Coord) -> Option<Occupant> {
    b[coord_index(c)]
}

impl Board {
    /// A board made of the given 25 cells, row-major.
    pub fn from_cells(cells: Vec<Option<Occupant>>) -> (r: Board)
        requires
            cells@.len() == 25,
        ensures
            r@ == cells@,
    {
        Board { cells }
    }

    /// The occupant of a square, or `None` if the square is vacant.
    pub fn get(&self, c: Coord) -> (r: Option<Occupant>)
        requires
            board_wf(self@),
        ensures
            r == board_at(self@, c),
    {
        proof {
            crate::coord::lemma_coord_index_bijective(c, 0);
        }
        let (col, row) = crate::coord::foo(c);
        self.cells[row * 5 + col]
    }

    /// Replaces the occupant of a square, leaving every other square as it
    /// was.
    pub fn set(&mut self, c: Coord, v: Option<Occupant>)
        requires
            board_wf(old(self)@),
        ensures
            final(self)@ == old(self)@.update(coord_index(c), v),
            board_wf(final(self)@),
            board_at(final(self)@, c) == v,
            forall|d: Coord| d != c ==> board_at(final(self)@, d) == board_at(old(self)@, d),
    {
        proof {
            crate::coord::lemma_coord_index_bijective(c, 0);
        }
        let (col, row) = crate::coord::foo(c);
        self.cells[row * 5 + col] = v;
        proof {
            assert forall|d: Coord| d != c implies board_at(self@, d) == board_at(
                old(self)@,
                d,
            ) by {
                crate::coord::lemma_coord_index_bijective(d, 0);
                if coord_index(d) == coord_index(c) {
                    assert(crate::coord::coord_from_index_spec(coord_index(d))
                        == crate::coord::coord_from_index_spec(coord_index(c)));
                }
            }
        }
    }

    /// The occupant of the cell at a flattened grid index.
    pub fn cell_at(&self, i: usize) -> (r: Option<Occupant>)
        requires
            i < self@.len(),
        ensures
            r == self@[i as int],
    {
        self.cells[i]
    }

    /// An independent copy of this board.
    pub fn duplicate(&self) -> (r: Board)
        ensures
            r@ == self@,
    {
        let mut cells: Vec<Option<Occupant>> = Vec::new();
        let mut i: usize = 0;
        while i < self.cells.len()
            invariant
                i <= self.cells@.len(),
                cells@.len() == i,
                forall|k: int| 0 <= k < i ==> cells@[k] == self.cells@[k],
            decreases self.cells@.len() - i,
        {
            cells.push(self.cells[i]);
            i = i + 1;
        }
        proof {
            assert(cells@ =~= self.cells@);
        }
        Board { cells }
    }
}

} // verus!
