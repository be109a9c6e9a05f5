//! The step kernel: the next state of one cell, from the cell and its eight
//! neighbours on a board with hard edges.

use crate::board::{index_of_pos, lemma_index_in_range, BoardSize, Position};
use vstd::prelude::*;

verus! {

/// The eight directions in which a cell has a neighbour. `Up` is towards row
/// zero, `Left` towards column zero.
#[derive(Clone, Copy, Debug, PartialEq, Eq, Structural)]
pub enum Direction {
    Up,
    Down,
    Left,
    Right,
    UR,
    DR,
    DL,
    UL,
}

/// The rule by which a cell's next state follows from its neighbours.
#[derive(Clone, Copy, Debug, PartialEq, Eq, Structural)]
pub enum Rule {
    /// A live cell survives with two or three neighbours; a dead one is born
    /// with exactly three.
    Classic,
    /// A cell lives next iff it has three to five neighbours, whatever it is
    /// now.
    Range,
}

impl Direction {
    /// The step along the columns: -1, 0 or 1.
    pub open spec fn dx(self) -> int {
        match self {
            Direction::Up | Direction::Down => 0,
            Direction::Left | Direction::DL | Direction::UL => -1,
            Direction::Right | Direction::UR | Direction::DR => 1,
        }
    }

    /// The step along the rows: -1, 0 or 1.
    pub open spec fn dy(self) -> int {
        match self {
            Direction::Left | Direction::Right => 0,
            Direction::Up | Direction::UL | Direction::UR => -1,
            Direction::Down | Direction::DL | Direction::DR => 1,
        }
    }

    /// The eight directions, each once.
    pub fn all() -> (directions: [Direction; 8])
        ensures
            directions@ == all_directions(),
    {
        [
            Direction::Up,
            Direction::Down,
            Direction::Left,
            Direction::Right,
            Direction::UR,
            Direction::DR,
            Direction::DL,
            Direction::UL,
        ]
    }
}

/// The eight directions in the order in which the kernel reads them.
pub open spec fn all_directions() -> Seq<Direction> {
    seq![
        Direction::Up,
        Direction::Down,
        Direction::Left,
        Direction::Right,
        Direction::UR,
        Direction::DR,
        Direction::DL,
        Direction::UL,
    ]
}

/// One coordinate moved by `delta` along an axis of length `extent`, or `None`
/// where the move would leave the axis: below zero, or to `extent` or beyond.
/// An axis along which nothing moves is not tested.
pub open spec fn shifted(coordinate: u32, extent: u32, delta: int) -> Option<u32> {
    if delta == 0 {
        Some(coordinate)
    } else if delta < 0 {
        if coordinate > 0 {
            Some((coordinate - 1) as u32)
        } else {
            None
        }
    } else {
        if coordinate + 1 < extent {
            Some((coordinate + 1) as u32)
        } else {
            None
        }
    }
}

/// The neighbour of `position` in `direction`, or `None` where the board ends
/// there. The board does not wrap around.
pub open spec fn neighbor(position: Position, size: BoardSize, direction: Direction) -> Option<
    Position,
> {
    match (
        shifted(position.x, size.width, direction.dx()),
        shifted(position.y, size.height, direction.dy()),
    ) {
        (Some(x), Some(y)) => Some(Position { x, y }),
        _ => None,
    }
}

/// What the kernel reads in `direction`: the neighbour's byte, or 0 where the
/// board ends.
pub open spec fn neighbor_value(
    input: Seq<u8>,
    size: BoardSize,
    position: Position,
    direction: Direction,
) -> u8 {
    match neighbor(position, size, direction) {
        Some(next) => input[size.index(next)],
        None => 0,
    }
}

/// The sum of what the kernel reads in the eight directions. On a grid of
/// zeroes and ones this is the number of live neighbours.
pub open spec fn neighbor_total(input: Seq<u8>, size: BoardSize, position: Position) -> int {
    neighbor_value(input, size, position, Direction::Up) + neighbor_value(
        input,
        size,
        position,
        Direction::Down,
    ) + neighbor_value(input, size, position, Direction::Left) + neighbor_value(
        input,
        size,
        position,
        Direction::Right,
    ) + neighbor_value(input, size, position, Direction::UR) + neighbor_value(
        input,
        size,
        position,
        Direction::DR,
    ) + neighbor_value(input, size, position, Direction::DL) + neighbor_value(
        input,
        size,
        position,
        Direction::UL,
    )
}

/// Whether the cell at `position` is alive: its byte is 1.
pub open spec fn alive_at(input: Seq<u8>, size: BoardSize, position: Position) -> bool {
    input[size.index(position)] == 1
}

/// The classic rule: survival with two or three neighbours, birth with three.
pub open spec fn classic_next(alive: bool, total: int) -> bool {
    alive && (total == 2 || total == 3) || !alive && total == 3
}

/// The range rule: three to five neighbours, the cell's own state set aside.
pub open spec fn range_next(total: int) -> bool {
    3 <= total <= 5
}

/// The state of the cell at `position` in the generation after `input`.
pub open spec fn next_state(rule: Rule, input: Seq<u8>, size: BoardSize, position: Position) -> bool {
    match rule {
        Rule::Classic => classic_next(
            alive_at(input, size, position),
            neighbor_total(input, size, position),
        ),
        Rule::Range => range_next(neighbor_total(input, size, position)),
    }
}

/// Whether every cell of `cells` is dead (0) or alive (1).
pub open spec fn is_cell_grid(cells: Seq<u8>) -> bool {
    forall|i: int| 0 <= i < cells.len() ==> #[trigger] cells[i] <= 1
}

/// A neighbour of a cell of the board lies on the board.
pub proof fn lemma_neighbor_on_board(position: Position, size: BoardSize, direction: Direction)
    requires
        size.contains(position),
    ensures
        neighbor(position, size, direction) matches Some(next) ==> size.contains(next) && next.x
            == position.x + direction.dx() && next.y == position.y + direction.dy(),
        neighbor(position, size, direction) is Some <==> 0 <= position.x + direction.dx()
            < size.width && 0 <= position.y + direction.dy() < size.height,
{
}

/// Moves `position` one cell in `direction`. The flag tells whether the board
/// goes on there; where it does not, the position comes back unmoved.
pub fn position_add(position: Position, size: BoardSize, direction: Direction) -> (moved: (
    bool,
    Position,
))
    ensures
        moved.0 == neighbor(position, size, direction).is_some(),
        moved.1 == match neighbor(position, size, direction) {
            Some(next) => next,
            None => position,
        },
{
    let x: Option<u32> = match direction {
        Direction::Up | Direction::Down => Some(position.x),
        Direction::Left | Direction::DL | Direction::UL => if position.x > 0 {
            Some(position.x - 1)
        } else {
            None
        },
        Direction::Right | Direction::UR | Direction::DR => if position.x < u32::MAX && position.x
            + 1 < size.width {
            Some(position.x + 1)
        } else {
            None
        },
    };
    let y: Option<u32> = match direction {
        Direction::Left | Direction::Right => Some(position.y),
        Direction::Up | Direction::UL | Direction::UR => if position.y > 0 {
            Some(position.y - 1)
        } else {
            None
        },
        Direction::Down | Direction::DL | Direction::DR => if position.y < u32::MAX && position.y
            + 1 < size.height {
            Some(position.y + 1)
        } else {
            None
        },
    };
    match (x, y) {
        (Some(x), Some(y)) => (true, Position { x, y }),
        _ => (false, position),
    }
}

/// Reads the neighbour of `position` in `direction`, or 0 where the board ends
/// there.
pub fn input_at(input: &[u8], size: BoardSize, position: Position, direction: Direction) -> (value:
    u8)
    requires
        input@.len() == size.cell_count(),
        size.contains(position),
    ensures
        value == neighbor_value(input@, size, position, direction),
{
    let (valid, next) = position_add(position, size, direction);
    if valid {
        proof {
            lemma_neighbor_on_board(position, size, direction);
            lemma_index_in_range(size, next);
            assert(input@.len() == input.len());
        }
        input[index_of_pos(next, size)]
    } else {
        0
    }
}

/// Adds up what lies in the eight directions round `position`.
pub fn neighbor_sum(input: &[u8], size: BoardSize, position: Position) -> (total: u32)
    requires
        input@.len() == size.cell_count(),
        size.contains(position),
    ensures
        total == neighbor_total(input@, size, position),
{
    let up: u32 = input_at(input, size, position, Direction::Up) as u32;
    let down: u32 = input_at(input, size, position, Direction::Down) as u32;
    let left: u32 = input_at(input, size, position, Direction::Left) as u32;
    let right: u32 = input_at(input, size, position, Direction::Right) as u32;
    let ur: u32 = input_at(input, size, position, Direction::UR) as u32;
    let dr: u32 = input_at(input, size, position, Direction::DR) as u32;
    let dl: u32 = input_at(input, size, position, Direction::DL) as u32;
    let ul: u32 = input_at(input, size, position, Direction::UL) as u32;
    up + down + left + right + ur + dr + dl + ul
}

/// The next state of the cell at `position` under the classic rule.
pub fn compute_life_tile(input: &[u8], size: BoardSize, position: Position) -> (alive: bool)
    requires
        input@.len() == size.cell_count(),
        size.contains(position),
    ensures
        alive == next_state(Rule::Classic, input@, size, position),
{
    let total: u32 = neighbor_sum(input, size, position);
    proof {
        lemma_index_in_range(size, position);
        assert(input@.len() == input.len());
    }
    let alive: bool = input[index_of_pos(position, size)] == 1;
    alive && (total == 2 || total == 3) || !alive && total == 3
}

/// The next state of the cell at `position` under the range rule.
pub fn compute_range_tile(input: &[u8], size: BoardSize, position: Position) -> (alive: bool)
    requires
        input@.len() == size.cell_count(),
        size.contains(position),
    ensures
        alive == next_state(Rule::Range, input@, size, position),
{
    let total: u32 = neighbor_sum(input, size, position);
    3 <= total && total <= 5
}

/// The next state of the cell at `position` under `rule`. It reads `input`
/// only, so the cells of a generation can be stepped in any order.
pub fn step(rule: Rule, input: &[u8], size: BoardSize, position: Position) -> (alive: bool)
    requires
        input@.len() == size.cell_count(),
        size.contains(position),
    ensures
        alive == next_state(rule, input@, size, position),
{
    match rule {
        Rule::Classic => compute_life_tile(input, size, position),
        Rule::Range => compute_range_tile(input, size, position),
    }
}

/// 1 where the board goes on in `direction`, 0 where it ends.
pub open spec fn neighbor_present(position: Position, size: BoardSize, direction: Direction) -> nat {
    if neighbor(position, size, direction) is Some {
        1
    } else {
        0
    }
}

/// The number of directions in which `position` has a neighbour on the board.
pub open spec fn valid_neighbors(position: Position, size: BoardSize) -> nat {
    neighbor_present(position, size, Direction::Up) + neighbor_present(
        position,
        size,
        Direction::Down,
    ) + neighbor_present(position, size, Direction::Left) + neighbor_present(
        position,
        size,
        Direction::Right,
    ) + neighbor_present(position, size, Direction::UR) + neighbor_present(
        position,
        size,
        Direction::DR,
    ) + neighbor_present(position, size, Direction::DL) + neighbor_present(
        position,
        size,
        Direction::UL,
    )
}

/// The number of cells of an axis of length `extent` that lie within one step
/// of `coordinate`, `coordinate` itself included.
pub open spec fn reach(coordinate: u32, extent: u32) -> nat {
    (1 + if coordinate > 0 {
        1nat
    } else {
        0nat
    } + if coordinate + 1 < extent {
        1nat
    } else {
        0nat
    }) as nat
}

/// Whether `coordinate` is the first or the last of an axis of length `extent`.
pub open spec fn at_end(coordinate: u32, extent: u32) -> bool {
    coordinate == 0 || coordinate + 1 == extent
}

/// A cell has as many neighbours as the block of cells within one step of it
/// holds, less the cell itself. This holds on every board, the narrow ones
/// included.
pub proof fn lemma_valid_neighbors(position: Position, size: BoardSize)
    ensures
        valid_neighbors(position, size) + 1 == reach(position.x, size.width) * reach(
            position.y,
            size.height,
        ),
{
    let rx = reach(position.x, size.width);
    let ry = reach(position.y, size.height);
    assert(rx == 1 || rx == 2 || rx == 3);
    assert(ry == 1 || ry == 2 || ry == 3);
    assert(rx * ry == if rx == 1 {
        ry
    } else if rx == 2 {
        2 * ry
    } else {
        3 * ry
    }) by (nonlinear_arith)
        requires
            rx == 1 || rx == 2 || rx == 3,
    ;
}

/// On a board at least two cells wide and two cells high, a corner cell has
/// exactly three neighbours.
pub proof fn lemma_corner_has_three_neighbors(position: Position, size: BoardSize)
    requires
        size.width >= 2,
        size.height >= 2,
        size.contains(position),
        at_end(position.x, size.width),
        at_end(position.y, size.height),
    ensures
        valid_neighbors(position, size) == 3,
{
}

/// On a board at least two cells wide and two cells high, a cell on one edge
/// that is no corner has exactly five neighbours.
pub proof fn lemma_edge_has_five_neighbors(position: Position, size: BoardSize)
    requires
        size.width >= 2,
        size.height >= 2,
        size.contains(position),
        at_end(position.x, size.width) != at_end(position.y, size.height),
    ensures
        valid_neighbors(position, size) == 5,
{
}

/// A cell that lies on no edge has all eight neighbours.
pub proof fn lemma_interior_has_eight_neighbors(position: Position, size: BoardSize)
    requires
        size.contains(position),
        !at_end(position.x, size.width),
        !at_end(position.y, size.height),
    ensures
        valid_neighbors(position, size) == 8,
{
}

/// On a board of a single cell nothing is read: the cell has no neighbour and
/// its total is 0.
pub proof fn lemma_single_cell_is_alone(input: Seq<u8>, position: Position, size: BoardSize)
    requires
        size.width == 1,
        size.height == 1,
        size.contains(position),
    ensures
        valid_neighbors(position, size) == 0,
        neighbor_total(input, size, position) == 0,
{
}

/// On a grid of zeroes and ones the total is at most the number of neighbours
/// that the cell has, and so at most eight.
pub proof fn lemma_total_bounded(input: Seq<u8>, position: Position, size: BoardSize)
    requires
        is_cell_grid(input),
        input.len() == size.cell_count(),
        size.contains(position),
    ensures
        0 <= neighbor_total(input, size, position) <= valid_neighbors(position, size) <= 8,
{
    assert forall|direction: Direction|
        neighbor_value(input, size, position, direction) <= neighbor_present(
            position,
            size,
            direction,
        ) by {
        lemma_neighbor_on_board(position, size, direction);
        match neighbor(position, size, direction) {
            Some(next) => {
                lemma_index_in_range(size, next);
            },
            None => {},
        }
    }
}

/// Two grids that hold the same cells round a position give the same reading
/// in every direction, and so the same total.
pub proof fn lemma_equal_neighbors_equal_total(
    first: Seq<u8>,
    second: Seq<u8>,
    size: BoardSize,
    position: Position,
)
    requires
        forall|direction: Direction|
            #[trigger] neighbor(position, size, direction) matches Some(next) ==> first[size.index(
                next,
            )] == second[size.index(next)],
    ensures
        forall|direction: Direction|
            neighbor_value(first, size, position, direction) == #[trigger] neighbor_value(
                second,
                size,
                position,
                direction,
            ),
        neighbor_total(first, size, position) == neighbor_total(second, size, position),
{
    assert forall|direction: Direction|
        neighbor_value(first, size, position, direction) == #[trigger] neighbor_value(
            second,
            size,
            position,
            direction,
        ) by {}
}

/// The next state of a cell depends on the cell and its neighbours alone: two
/// grids that agree on them give the same next state.
pub proof fn lemma_step_is_local(
    rule: Rule,
    first: Seq<u8>,
    second: Seq<u8>,
    size: BoardSize,
    position: Position,
)
    requires
        first[size.index(position)] == second[size.index(position)],
        forall|direction: Direction|
            #[trigger] neighbor(position, size, direction) matches Some(next) ==> first[size.index(
                next,
            )] == second[size.index(next)],
    ensures
        next_state(rule, first, size, position) == next_state(rule, second, size, position),
{
    lemma_equal_neighbors_equal_total(first, second, size, position);
}

/// Under the range rule a cell's own state does not count: two grids that
/// agree on the neighbours of a cell give it the same next state, whether the
/// cell itself is alive in one and dead in the other or not.
pub proof fn lemma_range_ignores_own_state(
    first: Seq<u8>,
    second: Seq<u8>,
    size: BoardSize,
    position: Position,
)
    requires
        forall|direction: Direction|
            #[trigger] neighbor(position, size, direction) matches Some(next) ==> first[size.index(
                next,
            )] == second[size.index(next)],
    ensures
        next_state(Rule::Range, first, size, position) == next_state(
            Rule::Range,
            second,
            size,
            position,
        ),
{
    lemma_equal_neighbors_equal_total(first, second, size, position);
}

/// On a grid of zeroes and ones the classic rule is the familiar one: a live
/// cell lives on with two or three live neighbours, a dead cell comes alive
/// with exactly three, and every other cell is dead in the next generation.
pub proof fn lemma_classic_rule(input: Seq<u8>, size: BoardSize, position: Position)
    requires
        is_cell_grid(input),
        input.len() == size.cell_count(),
        size.contains(position),
    ensures
        ({
            let alive = input[size.index(position)] == 1;
            let dead = input[size.index(position)] == 0;
            let total = neighbor_total(input, size, position);
            &&& alive || dead
            &&& alive ==> (next_state(Rule::Classic, input, size, position) <==> total == 2 || total
                == 3)
            &&& dead ==> (next_state(Rule::Classic, input, size, position) <==> total == 3)
        }),
{
    lemma_index_in_range(size, position);
}

} // verus!
