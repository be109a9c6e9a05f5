//! Board extents, cell positions and the row-major index that ties them to a
//! flat buffer of cells.

use vstd::prelude::*;

verus! {

/// The extent of a board, in cells.
#[derive(Clone, Copy, Debug, PartialEq, Eq, Structural)]
pub struct BoardSize {
    /// The number of tiles wide.
    pub width: u32,
    /// The number of tiles high.
    pub height: u32,
}

/// The coordinates of one cell.
#[derive(Clone, Copy, Debug, PartialEq, Eq, Structural)]
pub struct Position {
    /// The column, counted from the left edge.
    pub x: u32,
    /// The row, counted from the top edge.
    pub y: u32,
}

impl BoardSize {
    /// The number of cells on a board of this size.
    pub open spec fn cell_count(self) -> nat {
        (self.width * self.height) as nat
    }

    /// Whether every cell of the board can be addressed by a buffer offset.
    pub open spec fn fits(self) -> bool {
        self.cell_count() <= usize::MAX
    }

    /// Whether `position` lies on the board.
    pub open spec fn contains(self, position: Position) -> bool {
        position.x < self.width && position.y < self.height
    }

    /// The row-major offset of `position`.
    pub open spec fn index(self, position: Position) -> int {
        position.x + position.y * self.width
    }

    /// The position whose row-major offset is `index`.
    pub open spec fn position_of(self, index: int) -> Position
        recommends
            0 <= index < self.cell_count(),
    {
        Position { x: (index % (self.width as int)) as u32, y: (index / (self.width as int)) as u32 }
    }

    /// The number of cells, or `None` where it is more than a buffer can hold.
    pub fn cells(&self) -> (count: Option<usize>)
        ensures
            self.fits() <==> count is Some,
            count matches Some(n) ==> n == self.cell_count(),
    {
        let wide: u64 = self.width as u64;
        let high: u64 = self.height as u64;
        assert(wide * high <= 0xFFFF_FFFF * 0xFFFF_FFFF) by (nonlinear_arith)
            requires
                wide <= 0xFFFF_FFFF,
                high <= 0xFFFF_FFFF,
        ;
        let total: u64 = wide * high;
        if total <= usize::MAX as u64 {
            Some(total as usize)
        } else {
            None
        }
    }

    /// Whether `position` lies on the board.
    pub fn holds(&self, position: Position) -> (inside: bool)
        ensures
            inside == self.contains(position),
    {
        position.x < self.width && position.y < self.height
    }
}

/// The row-major offset of `position` on a board of `size`: one row after
/// another, each `size.width` cells long.
pub fn index_of_pos(position: Position, size: BoardSize) -> (index: usize)
    requires
        size.index(position) <= usize::MAX,
    ensures
        index == size.index(position),
{
    let column: u64 = position.x as u64;
    let row: u64 = position.y as u64;
    let wide: u64 = size.width as u64;
    assert(row * wide <= 0xFFFF_FFFF * 0xFFFF_FFFF) by (nonlinear_arith)
        requires
            row <= 0xFFFF_FFFF,
            wide <= 0xFFFF_FFFF,
    ;
    (column + row * wide) as usize
}

/// On a board, the row-major offset of a cell stays below the number of cells.
pub proof fn lemma_index_in_range(size: BoardSize, position: Position)
    requires
        size.contains(position),
    ensures
        0 <= size.index(position) < size.cell_count(),
{
    let w = size.width as int;
    let h = size.height as int;
    let x = position.x as int;
    let y = position.y as int;
    assert(x + y * w < w * h) by (nonlinear_arith)
        requires
            0 <= x < w,
            0 <= y < h,
    ;
    assert(0 <= y * w) by (nonlinear_arith)
        requires
            0 <= y,
            0 <= w,
    ;
}

/// The row-major index is one-to-one: a cell is found again from its offset,
/// so two cells of a board never share one.
pub proof fn lemma_position_of_index(size: BoardSize, position: Position)
    requires
        size.contains(position),
    ensures
        size.position_of(size.index(position)) == position,
{
    let w = size.width as int;
    let x = position.x as int;
    let y = position.y as int;
    vstd::arithmetic::div_mod::lemma_fundamental_div_mod_converse(x + y * w, w, y, x);
}

/// Every offset below the number of cells belongs to exactly one cell of the
/// board.
pub proof fn lemma_index_of_position(size: BoardSize, index: int)
    requires
        0 <= index < size.cell_count(),
    ensures
        size.contains(size.position_of(index)),
        size.index(size.position_of(index)) == index,
{
    let w = size.width as int;
    let h = size.height as int;
    assert(w > 0) by (nonlinear_arith)
        requires
            0 <= index < w * h,
            0 <= w,
            0 <= h,
    ;
    vstd::arithmetic::div_mod::lemma_fundamental_div_mod(index, w);
    vstd::arithmetic::div_mod::lemma_mod_bound(index, w);
    let q = index / w;
    let r = index % w;
    assert(0 <= q < h) by (nonlinear_arith)
        requires
            index == w * q + r,
            0 <= r < w,
            0 <= index < w * h,
            0 < w,
    ;
    assert(w * q == q * w) by (nonlinear_arith);
}

/// Two cells of a board with the same offset are the same cell.
pub proof fn lemma_index_injective(size: BoardSize, first: Position, second: Position)
    requires
        size.contains(first),
        size.contains(second),
        size.index(first) == size.index(second),
    ensures
        first == second,
{
    lemma_position_of_index(size, first);
    lemma_position_of_index(size, second);
}

} // verus!
