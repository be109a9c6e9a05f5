//! The glider: five cells that, under the classic rule, are found one cell
//! further down and to the right after four generations.

use crate::board::{BoardSize, Position};
use crate::dispatch::{generations, lemma_next_generation_at, next_generation};
use crate::kernel::{
    classic_next, lemma_neighbor_on_board, neighbor_total, neighbor_value, Direction, Rule,
};
use vstd::prelude::*;

verus! {

/// Whether the cell `(x, y)`, counted from the glider's corner, is alive in
/// the glider's `phase`-th generation. The fourth generation is the first one
/// again, one cell further down and to the right.
pub open spec fn glider_cell(phase: int, x: int, y: int) -> bool {
    if phase == 0 {
        (x == 1 && y == 0) || (x == 2 && y == 1) || (x == 0 && y == 2) || (x == 1 && y == 2) || (x
            == 2 && y == 2)
    } else if phase == 1 {
        (x == 0 && y == 1) || (x == 2 && y == 1) || (x == 1 && y == 2) || (x == 2 && y == 2) || (x
            == 1 && y == 3)
    } else if phase == 2 {
        (x == 2 && y == 1) || (x == 0 && y == 2) || (x == 2 && y == 2) || (x == 1 && y == 3) || (x
            == 2 && y == 3)
    } else if phase == 3 {
        (x == 1 && y == 1) || (x == 2 && y == 2) || (x == 3 && y == 2) || (x == 1 && y == 3) || (x
            == 2 && y == 3)
    } else {
        (x == 2 && y == 1) || (x == 3 && y == 2) || (x == 1 && y == 3) || (x == 2 && y == 3) || (x
            == 3 && y == 3)
    }
}

/// 1 where the glider has a live cell, else 0.
pub open spec fn glider_byte(phase: int, x: int, y: int) -> u8 {
    if glider_cell(phase, x, y) {
        1
    } else {
        0
    }
}

/// The number of live cells of the glider round the cell `(x, y)`.
pub open spec fn glider_total(phase: int, x: int, y: int) -> int {
    glider_byte(phase, x, y - 1) + glider_byte(phase, x, y + 1) + glider_byte(phase, x - 1, y)
        + glider_byte(phase, x + 1, y) + glider_byte(phase, x + 1, y - 1) + glider_byte(
        phase,
        x + 1,
        y + 1,
    ) + glider_byte(phase, x - 1, y + 1) + glider_byte(phase, x - 1, y - 1)
}

/// Whether `cells` is a board of `size` on which the glider's `phase`-th
/// generation, its corner at `corner`, is alive and nothing else is.
pub open spec fn shows_glider(cells: Seq<u8>, size: BoardSize, corner: Position, phase: int) -> bool {
    &&& cells.len() == size.cell_count()
    &&& forall|position: Position| #[trigger]
        size.contains(position) ==> cells[size.index(position)] == glider_byte(
            phase,
            position.x - corner.x,
            position.y - corner.y,
        )
}

/// The classic rule takes each generation of the glider to the next: a cell
/// with the glider's cells round it, and nothing else, is alive next exactly
/// where the next generation of the glider has a cell.
pub proof fn lemma_glider_rule(phase: int, x: int, y: int)
    requires
        0 <= phase < 4,
    ensures
        classic_next(glider_cell(phase, x, y), glider_total(phase, x, y)) == glider_cell(
            phase + 1,
            x,
            y,
        ),
{
}

/// On a board that shows a glider with room to move, what the kernel reads in
/// a direction is what the glider has there: beyond the edge of the board the
/// kernel reads 0, and the glider has no cell there.
pub proof fn lemma_glider_reading(
    cells: Seq<u8>,
    size: BoardSize,
    corner: Position,
    phase: int,
    position: Position,
    direction: Direction,
)
    requires
        shows_glider(cells, size, corner, phase),
        0 <= phase <= 4,
        corner.x + 4 <= size.width,
        corner.y + 4 <= size.height,
        size.contains(position),
    ensures
        neighbor_value(cells, size, position, direction) == glider_byte(
            phase,
            position.x + direction.dx() - corner.x,
            position.y + direction.dy() - corner.y,
        ),
{
    lemma_neighbor_on_board(position, size, direction);
}

/// One generation on: a board that shows a generation of the glider shows the
/// next one after a step under the classic rule.
pub proof fn lemma_glider_step(cells: Seq<u8>, size: BoardSize, corner: Position, phase: int)
    requires
        shows_glider(cells, size, corner, phase),
        0 <= phase < 4,
        corner.x + 4 <= size.width,
        corner.y + 4 <= size.height,
    ensures
        shows_glider(next_generation(Rule::Classic, cells, size), size, corner, phase + 1),
{
    let next = next_generation(Rule::Classic, cells, size);
    assert forall|position: Position| #[trigger] size.contains(position) implies next[size.index(
        position,
    )] == glider_byte(phase + 1, position.x - corner.x, position.y - corner.y) by {
        let x = position.x - corner.x;
        let y = position.y - corner.y;
        lemma_next_generation_at(Rule::Classic, cells, size, position);
        lemma_glider_reading(cells, size, corner, phase, position, Direction::Up);
        lemma_glider_reading(cells, size, corner, phase, position, Direction::Down);
        lemma_glider_reading(cells, size, corner, phase, position, Direction::Left);
        lemma_glider_reading(cells, size, corner, phase, position, Direction::Right);
        lemma_glider_reading(cells, size, corner, phase, position, Direction::UR);
        lemma_glider_reading(cells, size, corner, phase, position, Direction::DR);
        lemma_glider_reading(cells, size, corner, phase, position, Direction::DL);
        lemma_glider_reading(cells, size, corner, phase, position, Direction::UL);
        assert(neighbor_total(cells, size, position) == glider_total(phase, x, y));
        lemma_glider_rule(phase, x, y);
    }
}

/// A glider moves. Let a board show a glider and nothing else, with a row
/// and a column free below it and to its right. After four generations under
/// the classic rule the board shows the same five cells one cell further down
/// and to the right, and nothing else.
pub proof fn lemma_glider_moves(cells: Seq<u8>, size: BoardSize, corner: Position)
    requires
        shows_glider(cells, size, corner, 0),
        corner.x + 4 <= size.width,
        corner.y + 4 <= size.height,
    ensures
        shows_glider(
            generations(Rule::Classic, cells, size, 4),
            size,
            Position { x: (corner.x + 1) as u32, y: (corner.y + 1) as u32 },
            0,
        ),
{
    let first = next_generation(Rule::Classic, cells, size);
    let second = next_generation(Rule::Classic, first, size);
    let third = next_generation(Rule::Classic, second, size);
    let fourth = next_generation(Rule::Classic, third, size);
    lemma_glider_step(cells, size, corner, 0);
    lemma_glider_step(first, size, corner, 1);
    lemma_glider_step(second, size, corner, 2);
    lemma_glider_step(third, size, corner, 3);
    reveal_with_fuel(generations, 5);
    assert(generations(Rule::Classic, cells, size, 4) == fourth);
    let moved = Position { x: (corner.x + 1) as u32, y: (corner.y + 1) as u32 };
    assert forall|position: Position| #[trigger] size.contains(position) implies fourth[size.index(
        position,
    )] == glider_byte(0, position.x - moved.x, position.y - moved.y) by {
        assert(glider_cell(4, position.x - corner.x, position.y - corner.y) == glider_cell(
            0,
            position.x - moved.x,
            position.y - moved.y,
        ));
    }
}

} // verus!
