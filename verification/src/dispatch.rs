//! One generation over a whole board: the kernel entry points, their dispatch
//! in tile groups, and the pair of buffers that change roles after each step.

use crate::board::{
    index_of_pos, lemma_index_in_range, lemma_index_injective, lemma_index_of_position,
    lemma_position_of_index, BoardSize, Position,
};
use crate::kernel::{is_cell_grid, next_state, step, Rule};
use vstd::prelude::*;

verus! {

/// The edge of a tile group: the kernel is dispatched in blocks of
/// `TILE` by `TILE` invocations.
pub const TILE: u32 = 32;

/// The place of one kernel invocation in the dispatch.
#[derive(Clone, Copy, Debug, PartialEq, Eq, Structural)]
pub struct InvocationId {
    pub x: u32,
    pub y: u32,
    pub z: u32,
}

impl InvocationId {
    /// The cell that the invocation works on: its first two coordinates.
    pub open spec fn position(self) -> Position {
        Position { x: self.x, y: self.y }
    }

    /// Drops the third coordinate.
    pub fn truncate(self) -> (position: Position)
        ensures
            position == self.position(),
    {
        Position { x: self.x, y: self.y }
    }
}

/// The byte of the cell at `position` in the generation after `input`.
pub open spec fn next_cell(rule: Rule, input: Seq<u8>, size: BoardSize, position: Position) -> u8 {
    if next_state(rule, input, size, position) {
        1
    } else {
        0
    }
}

/// The generation after `input`: every cell stepped, each from `input` alone.
pub open spec fn next_generation(rule: Rule, input: Seq<u8>, size: BoardSize) -> Seq<u8> {
    Seq::new(size.cell_count(), |i: int| next_cell(rule, input, size, size.position_of(i)))
}

/// The grid `count` generations after `input`.
pub open spec fn generations(rule: Rule, input: Seq<u8>, size: BoardSize, count: nat) -> Seq<u8>
    decreases count,
{
    if count == 0 {
        input
    } else {
        next_generation(rule, generations(rule, input, size, (count - 1) as nat), size)
    }
}

/// Whether `position` belongs to the tile group `(group_x, group_y)`.
pub open spec fn in_tile(position: Position, group_x: u32, group_y: u32) -> bool {
    position.x / TILE == group_x && position.y / TILE == group_y
}

/// The number of tile groups that cover an axis of length `extent`.
pub open spec fn groups_for(extent: u32) -> int {
    (extent + TILE - 1) / (TILE as int)
}

/// One invocation of the kernel under `rule`: writes the next state of the
/// cell that `id` names into `output_data`. An invocation whose cell lies off
/// the board does nothing.
pub fn rule_step(
    rule: Rule,
    id: InvocationId,
    board_size: &BoardSize,
    input_data: &[u8],
    output_data: &mut [u8],
)
    requires
        input_data@.len() == board_size.cell_count(),
        old(output_data)@.len() == board_size.cell_count(),
    ensures
        final(output_data)@ == if board_size.contains(id.position()) {
            old(output_data)@.update(
                board_size.index(id.position()),
                next_cell(rule, input_data@, *board_size, id.position()),
            )
        } else {
            old(output_data)@
        },
{
    let pos = id.truncate();
    let size = BoardSize { width: board_size.width, height: board_size.height };
    if size.holds(pos) {
        proof {
            lemma_index_in_range(size, pos);
            assert(input_data@.len() == input_data.len());
        }
        let alive = step(rule, input_data, size, pos);
        output_data[index_of_pos(pos, size)] = if alive {
            1
        } else {
            0
        };
    }
}

/// One invocation of the kernel under the classic rule.
pub fn life_step(
    id: InvocationId,
    board_size: &BoardSize,
    input_data: &[u8],
    output_data: &mut [u8],
)
    requires
        input_data@.len() == board_size.cell_count(),
        old(output_data)@.len() == board_size.cell_count(),
    ensures
        final(output_data)@ == if board_size.contains(id.position()) {
            old(output_data)@.update(
                board_size.index(id.position()),
                next_cell(Rule::Classic, input_data@, *board_size, id.position()),
            )
        } else {
            old(output_data)@
        },
{
    rule_step(Rule::Classic, id, board_size, input_data, output_data)
}

/// One invocation of the kernel under the range rule.
pub fn range_step(
    id: InvocationId,
    board_size: &BoardSize,
    input_data: &[u8],
    output_data: &mut [u8],
)
    requires
        input_data@.len() == board_size.cell_count(),
        old(output_data)@.len() == board_size.cell_count(),
    ensures
        final(output_data)@ == if board_size.contains(id.position()) {
            old(output_data)@.update(
                board_size.index(id.position()),
                next_cell(Rule::Range, input_data@, *board_size, id.position()),
            )
        } else {
            old(output_data)@
        },
{
    rule_step(Rule::Range, id, board_size, input_data, output_data)
}

/// The number of tile groups to dispatch along an axis of length `extent`:
/// enough to cover it, the last one hanging over the edge where `extent` is no
/// multiple of `TILE`.
pub fn tile_groups(extent: u32) -> (groups: u32)
    ensures
        groups == groups_for(extent),
        groups * TILE >= extent,
        extent > 0 ==> (groups - 1) * TILE < extent,
        extent == 0 ==> groups == 0,
{
    let whole: u32 = extent / TILE;
    if extent % TILE != 0 {
        whole + 1
    } else {
        whole
    }
}

/// What `output` holds at `position` while a dispatch is under way: the next
/// state where the invocation for that cell has run, else what was there.
spec fn cell_during(
    rule: Rule,
    input: Seq<u8>,
    before: Seq<u8>,
    size: BoardSize,
    position: Position,
    done: bool,
) -> u8 {
    if done {
        next_cell(rule, input, size, position)
    } else {
        before[size.index(position)]
    }
}

/// Whether the invocation for `position` comes before the local invocation
/// `(local_x, local_y)` of its tile group, row by row.
spec fn before_local(position: Position, local_x: int, local_y: int) -> bool {
    position.y % TILE < local_y || (position.y % TILE == local_y && position.x % TILE < local_x)
}

/// Whether the tile group of `position` comes before `(group_x, group_y)`, row
/// by row.
spec fn before_group(position: Position, group_x: int, group_y: int) -> bool {
    position.y / TILE < group_y || (position.y / TILE == group_y && position.x / TILE < group_x)
}

/// Runs the kernel for the `TILE` by `TILE` invocations of one tile group. The
/// cells of the group that lie on the board are stepped; nothing else changes.
pub fn run_tile_group(
    rule: Rule,
    group_x: u32,
    group_y: u32,
    size: BoardSize,
    input: &[u8],
    output: &mut [u8],
)
    requires
        input@.len() == size.cell_count(),
        old(output)@.len() == size.cell_count(),
    ensures
        final(output)@.len() == old(output)@.len(),
        forall|position: Position| #[trigger]
            size.contains(position) ==> final(output)@[size.index(position)] == if in_tile(
                position,
                group_x,
                group_y,
            ) {
                next_cell(rule, input@, size, position)
            } else {
                old(output)@[size.index(position)]
            },
{
    let ghost before = output@;
    let base_x: u64 = group_x as u64 * TILE as u64;
    let base_y: u64 = group_y as u64 * TILE as u64;
    let mut local_y: u32 = 0;
    while local_y < TILE
        invariant
            local_y <= TILE,
            base_x == group_x * TILE,
            base_y == group_y * TILE,
            input@.len() == size.cell_count(),
            output@.len() == size.cell_count(),
            before.len() == size.cell_count(),
            forall|position: Position| #[trigger]
                size.contains(position) ==> output@[size.index(position)] == cell_during(
                    rule,
                    input@,
                    before,
                    size,
                    position,
                    in_tile(position, group_x, group_y) && before_local(position, 0, local_y as int),
                ),
        decreases TILE - local_y,
    {
        let mut local_x: u32 = 0;
        while local_x < TILE
            invariant
                local_x <= TILE,
                local_y < TILE,
                base_x == group_x * TILE,
                base_y == group_y * TILE,
                input@.len() == size.cell_count(),
                output@.len() == size.cell_count(),
                before.len() == size.cell_count(),
                forall|position: Position| #[trigger]
                    size.contains(position) ==> output@[size.index(position)] == cell_during(
                        rule,
                        input@,
                        before,
                        size,
                        position,
                        in_tile(position, group_x, group_y) && before_local(
                            position,
                            local_x as int,
                            local_y as int,
                        ),
                    ),
            decreases TILE - local_x,
        {
            let x: u64 = base_x + local_x as u64;
            let y: u64 = base_y + local_y as u64;
            if x <= u32::MAX as u64 && y <= u32::MAX as u64 {
                let id = InvocationId { x: x as u32, y: y as u32, z: 0 };
                rule_step(rule, id, &size, input, output);
                proof {
                    let here = id.position();
                    if size.contains(here) {
                        lemma_index_in_range(size, here);
                    }
                    assert forall|position: Position| #[trigger]
                        size.contains(position) implies output@[size.index(position)]
                        == cell_during(
                        rule,
                        input@,
                        before,
                        size,
                        position,
                        in_tile(position, group_x, group_y) && before_local(
                            position,
                            local_x + 1,
                            local_y as int,
                        ),
                    ) by {
                        lemma_index_in_range(size, position);
                        if size.contains(here) && size.index(position) == size.index(here) {
                            lemma_index_injective(size, position, here);
                        }
                    }
                }
            }
            local_x = local_x + 1;
        }
        local_y = local_y + 1;
    }
}

/// Steps a whole board: dispatches the kernel in tile groups that cover it, the
/// groups at the right and lower edges cut off where the board ends. `output`
/// then holds the generation after `input`.
pub fn dispatch(rule: Rule, size: BoardSize, input: &[u8], output: &mut [u8])
    requires
        input@.len() == size.cell_count(),
        old(output)@.len() == size.cell_count(),
    ensures
        final(output)@ == next_generation(rule, input@, size),
{
    let ghost before = output@;
    let groups_x: u32 = tile_groups(size.width);
    let groups_y: u32 = tile_groups(size.height);
    let mut group_y: u32 = 0;
    while group_y < groups_y
        invariant
            group_y <= groups_y,
            groups_x * TILE >= size.width,
            groups_y * TILE >= size.height,
            input@.len() == size.cell_count(),
            output@.len() == size.cell_count(),
            before.len() == size.cell_count(),
            forall|position: Position| #[trigger]
                size.contains(position) ==> output@[size.index(position)] == cell_during(
                    rule,
                    input@,
                    before,
                    size,
                    position,
                    before_group(position, 0, group_y as int),
                ),
        decreases groups_y - group_y,
    {
        let mut group_x: u32 = 0;
        while group_x < groups_x
            invariant
                group_x <= groups_x,
                group_y < groups_y,
                groups_x * TILE >= size.width,
                groups_y * TILE >= size.height,
                input@.len() == size.cell_count(),
                output@.len() == size.cell_count(),
                before.len() == size.cell_count(),
                forall|position: Position| #[trigger]
                    size.contains(position) ==> output@[size.index(position)] == cell_during(
                        rule,
                        input@,
                        before,
                        size,
                        position,
                        before_group(position, group_x as int, group_y as int),
                    ),
            decreases groups_x - group_x,
        {
            run_tile_group(rule, group_x, group_y, size, input, output);
            group_x = group_x + 1;
        }
        group_y = group_y + 1;
    }
    proof {
        let after = next_generation(rule, input@, size);
        assert forall|i: int| 0 <= i < output@.len() implies output@[i] == after[i] by {
            lemma_index_of_position(size, i);
            assert(size.contains(size.position_of(i)));
        }
        assert(output@ =~= after);
    }
}

/// The generation after any grid is a grid of zeroes and ones, with one cell
/// for each place of the board.
pub proof fn lemma_next_generation_is_grid(rule: Rule, input: Seq<u8>, size: BoardSize)
    ensures
        next_generation(rule, input, size).len() == size.cell_count(),
        is_cell_grid(next_generation(rule, input, size)),
{
}

/// Each cell of the next generation is the step of that cell: the cell at a
/// position of the board is found at the position's row-major offset.
pub proof fn lemma_next_generation_at(
    rule: Rule,
    input: Seq<u8>,
    size: BoardSize,
    position: Position,
)
    requires
        size.contains(position),
    ensures
        next_generation(rule, input, size)[size.index(position)] == next_cell(
            rule,
            input,
            size,
            position,
        ),
{
    lemma_index_in_range(size, position);
    lemma_position_of_index(size, position);
}

/// Why cells were not accepted as a board.
#[derive(Clone, Copy, Debug, PartialEq, Eq, Structural)]
pub enum GridError {
    /// There are not as many cells as the board has places.
    WrongLength,
    /// A cell is neither dead (0) nor alive (1).
    NotACell,
}

/// A board with its two buffers: the generation that is shown, and the one
/// that the next step writes. After a step they change roles, so no buffer is
/// read and written within one step.
pub struct Board {
    size: BoardSize,
    current: Vec<u8>,
    scratch: Vec<u8>,
}

impl View for Board {
    type V = Seq<u8>;

    /// The cells of the current generation, row after row.
    closed spec fn view(&self) -> Seq<u8> {
        self.current@
    }
}

impl Board {
    #[verifier::type_invariant]
    spec fn well_formed(self) -> bool {
        &&& self.current@.len() == self.size.cell_count()
        &&& self.scratch@.len() == self.size.cell_count()
        &&& is_cell_grid(self.current@)
    }

    /// The extent of the board.
    pub closed spec fn extent(self) -> BoardSize {
        self.size
    }

    /// A board of `size` that shows `cells`, row after row. The cells are
    /// refused where their number is not that of the board, else where one
    /// of them is neither 0 nor 1.
    pub fn new(size: BoardSize, cells: Vec<u8>) -> (made: Result<Board, GridError>)
        ensures
            cells@.len() != size.cell_count() ==> made == Err::<Board, GridError>(
                GridError::WrongLength,
            ),
            cells@.len() == size.cell_count() && !is_cell_grid(cells@) ==> made == Err::<
                Board,
                GridError,
            >(GridError::NotACell),
            cells@.len() == size.cell_count() && is_cell_grid(cells@) ==> made is Ok,
            made matches Ok(board) ==> board@ == cells@ && board.extent() == size,
    {
        let given: usize = cells.len();
        let count = match size.cells() {
            Some(count) => count,
            None => {
                return Err(GridError::WrongLength);
            },
        };
        if given != count {
            return Err(GridError::WrongLength);
        }
        let mut i: usize = 0;
        while i < count
            invariant
                i <= count,
                count == cells@.len(),
                count == size.cell_count(),
                forall|j: int| 0 <= j < i ==> #[trigger] cells@[j] <= 1,
            decreases count - i,
        {
            if cells[i] > 1 {
                return Err(GridError::NotACell);
            }
            i = i + 1;
        }
        let scratch = cells.clone();
        Ok(Board { size, current: cells, scratch })
    }

    /// The extent of the board.
    pub fn size(&self) -> (size: BoardSize)
        ensures
            size == self.extent(),
    {
        self.size
    }

    /// The cells of the current generation: as many as the board has places,
    /// each 0 or 1.
    pub fn cells(&self) -> (cells: &[u8])
        ensures
            cells@ == self@,
            cells@.len() == self.extent().cell_count(),
            is_cell_grid(cells@),
    {
        proof {
            use_type_invariant(self);
        }
        self.current.as_slice()
    }

    /// Whether the cell at `position` is alive, or `None` where `position` lies
    /// off the board.
    pub fn is_alive(&self, position: Position) -> (alive: Option<bool>)
        ensures
            alive == if self.extent().contains(position) {
                Some(self@[self.extent().index(position)] == 1)
            } else {
                None
            },
    {
        proof {
            use_type_invariant(self);
        }
        if self.size.holds(position) {
            proof {
                lemma_index_in_range(self.size, position);
                assert(self.current@.len() == self.current.len());
            }
            Some(self.current[index_of_pos(position, self.size)] == 1)
        } else {
            None
        }
    }

    /// The board one generation later under `rule`: the kernel is dispatched
    /// from the current buffer into the other one, and the two change roles.
    pub fn tick(self, rule: Rule) -> (next: Board)
        ensures
            next@ == next_generation(rule, self@, self.extent()),
            next.extent() == self.extent(),
    {
        proof {
            use_type_invariant(&self);
        }
        let Board { size, current, mut scratch } = self;
        dispatch(rule, size, current.as_slice(), scratch.as_mut_slice());
        Board { size, current: scratch, scratch: current }
    }
}

} // verus!
