use rust_gpu_life::board::{index_of_pos, BoardSize, Position};
use rust_gpu_life::kernel::{
    compute_life_tile, compute_range_tile, input_at, neighbor_sum, position_add, step, Direction,
    Rule,
};

fn board(width: u32, height: u32) -> BoardSize {
    BoardSize { width, height }
}

fn at(x: u32, y: u32) -> Position {
    Position { x, y }
}

fn grid(size: BoardSize, alive: &[(u32, u32)]) -> Vec<u8> {
    let mut cells = vec![0u8; (size.width * size.height) as usize];
    for &(x, y) in alive {
        cells[(x + y * size.width) as usize] = 1;
    }
    cells
}

fn count_valid(position: Position, size: BoardSize) -> usize {
    Direction::all()
        .iter()
        .filter(|direction| position_add(position, size, **direction).0)
        .count()
}

#[test]
fn index_is_row_major() {
    let size = board(5, 4);
    assert_eq!(index_of_pos(at(0, 0), size), 0);
    assert_eq!(index_of_pos(at(4, 0), size), 4);
    assert_eq!(index_of_pos(at(0, 1), size), 5);
    assert_eq!(index_of_pos(at(2, 1), size), 7);
    assert_eq!(index_of_pos(at(4, 3), size), 19);
}

#[test]
fn cell_count_is_width_times_height() {
    assert_eq!(board(5, 4).cells(), Some(20));
    assert_eq!(board(0, 7).cells(), Some(0));
    assert_eq!(board(7, 0).cells(), Some(0));
    assert_eq!(board(65536, 65536).cells(), usize::try_from(4294967296u64).ok());
    assert_eq!(
        board(u32::MAX, u32::MAX).cells(),
        usize::try_from(18446744065119617025u64).ok()
    );
}

#[test]
fn holds_tells_the_board_from_the_rest() {
    let size = board(3, 2);
    assert!(size.holds(at(0, 0)));
    assert!(size.holds(at(2, 1)));
    assert!(!size.holds(at(3, 0)));
    assert!(!size.holds(at(0, 2)));
    assert!(!board(0, 0).holds(at(0, 0)));
}

#[test]
fn all_directions_are_eight_and_distinct() {
    let all = Direction::all();
    assert_eq!(all.len(), 8);
    for i in 0..8 {
        for j in 0..i {
            assert_ne!(all[i], all[j]);
        }
    }
}

#[test]
fn position_add_moves_one_cell() {
    let size = board(5, 5);
    let here = at(2, 2);
    assert_eq!(position_add(here, size, Direction::Up), (true, at(2, 1)));
    assert_eq!(position_add(here, size, Direction::Down), (true, at(2, 3)));
    assert_eq!(position_add(here, size, Direction::Left), (true, at(1, 2)));
    assert_eq!(position_add(here, size, Direction::Right), (true, at(3, 2)));
    assert_eq!(position_add(here, size, Direction::UR), (true, at(3, 1)));
    assert_eq!(position_add(here, size, Direction::DR), (true, at(3, 3)));
    assert_eq!(position_add(here, size, Direction::DL), (true, at(1, 3)));
    assert_eq!(position_add(here, size, Direction::UL), (true, at(1, 1)));
}

#[test]
fn position_add_stops_at_the_edges() {
    let size = board(4, 3);
    let corner = at(0, 0);
    assert_eq!(position_add(corner, size, Direction::Up), (false, corner));
    assert_eq!(position_add(corner, size, Direction::Left), (false, corner));
    assert_eq!(position_add(corner, size, Direction::UL), (false, corner));
    assert_eq!(position_add(corner, size, Direction::UR), (false, corner));
    assert_eq!(position_add(corner, size, Direction::DL), (false, corner));
    assert_eq!(position_add(corner, size, Direction::Right), (true, at(1, 0)));
    assert_eq!(position_add(corner, size, Direction::Down), (true, at(0, 1)));
    assert_eq!(position_add(corner, size, Direction::DR), (true, at(1, 1)));
    let far = at(3, 2);
    assert_eq!(position_add(far, size, Direction::Right), (false, far));
    assert_eq!(position_add(far, size, Direction::Down), (false, far));
    assert_eq!(position_add(far, size, Direction::DR), (false, far));
    assert_eq!(position_add(far, size, Direction::UL), (true, at(2, 1)));
}

#[test]
fn position_add_at_the_largest_coordinate() {
    let size = board(u32::MAX, u32::MAX);
    let last = at(u32::MAX - 1, u32::MAX - 1);
    assert_eq!(position_add(last, size, Direction::Right), (false, last));
    assert_eq!(position_add(last, size, Direction::Down), (false, last));
    assert_eq!(
        position_add(last, size, Direction::UL),
        (true, at(u32::MAX - 2, u32::MAX - 2))
    );
    let beyond = at(u32::MAX, u32::MAX);
    assert_eq!(position_add(beyond, size, Direction::DR), (false, beyond));
}

#[test]
fn corners_have_three_neighbors() {
    for size in [board(2, 2), board(3, 3), board(7, 4)] {
        let right = size.width - 1;
        let low = size.height - 1;
        for corner in [at(0, 0), at(right, 0), at(0, low), at(right, low)] {
            assert_eq!(count_valid(corner, size), 3);
        }
    }
}

#[test]
fn edges_have_five_neighbors() {
    let size = board(7, 4);
    for x in 1..6 {
        assert_eq!(count_valid(at(x, 0), size), 5);
        assert_eq!(count_valid(at(x, 3), size), 5);
    }
    for y in 1..3 {
        assert_eq!(count_valid(at(0, y), size), 5);
        assert_eq!(count_valid(at(6, y), size), 5);
    }
}

#[test]
fn interior_cells_have_eight_neighbors() {
    let size = board(7, 4);
    for x in 1..6 {
        for y in 1..3 {
            assert_eq!(count_valid(at(x, y), size), 8);
        }
    }
}

#[test]
fn narrow_boards_have_fewer_neighbors() {
    assert_eq!(count_valid(at(0, 0), board(1, 1)), 0);
    assert_eq!(count_valid(at(0, 0), board(1, 5)), 1);
    assert_eq!(count_valid(at(0, 2), board(1, 5)), 2);
    assert_eq!(count_valid(at(2, 0), board(5, 1)), 2);
}

#[test]
fn single_cell_board_reads_nothing() {
    let size = board(1, 1);
    for cells in [vec![0u8], vec![1u8]] {
        for direction in Direction::all() {
            assert_eq!(input_at(&cells, size, at(0, 0), direction), 0);
        }
        assert_eq!(neighbor_sum(&cells, size, at(0, 0)), 0);
        assert!(!compute_life_tile(&cells, size, at(0, 0)));
        assert!(!compute_range_tile(&cells, size, at(0, 0)));
    }
}

#[test]
fn input_at_reads_the_neighbor_and_never_wraps() {
    let size = board(3, 3);
    // Only the right column is alive.
    let cells = grid(size, &[(2, 0), (2, 1), (2, 2)]);
    // From the left column, a wrapped read to the left would find a live cell.
    assert_eq!(input_at(&cells, size, at(0, 1), Direction::Left), 0);
    assert_eq!(input_at(&cells, size, at(0, 1), Direction::UL), 0);
    assert_eq!(input_at(&cells, size, at(0, 1), Direction::DL), 0);
    assert_eq!(input_at(&cells, size, at(1, 1), Direction::Right), 1);
    assert_eq!(input_at(&cells, size, at(1, 1), Direction::UR), 1);
    assert_eq!(input_at(&cells, size, at(1, 1), Direction::DR), 1);
    assert_eq!(input_at(&cells, size, at(1, 1), Direction::Left), 0);
    assert_eq!(neighbor_sum(&cells, size, at(0, 1)), 0);
    assert_eq!(neighbor_sum(&cells, size, at(1, 1)), 3);
    assert_eq!(neighbor_sum(&cells, size, at(2, 1)), 2);
}

#[test]
fn left_and_right_keep_the_row() {
    let size = board(4, 4);
    // One live cell at (3, 1): it is the right neighbour of (2, 1) only.
    let cells = grid(size, &[(3, 1)]);
    assert_eq!(input_at(&cells, size, at(2, 1), Direction::Right), 1);
    assert_eq!(input_at(&cells, size, at(2, 2), Direction::Right), 0);
    assert_eq!(input_at(&cells, size, at(1, 2), Direction::Right), 0);
}

#[test]
fn classic_birth_on_three_neighbors() {
    let size = board(3, 3);
    let cells = grid(size, &[(0, 0), (1, 0), (2, 0)]);
    assert_eq!(neighbor_sum(&cells, size, at(1, 1)), 3);
    let first = compute_life_tile(&cells, size, at(1, 1));
    let second = compute_life_tile(&cells, size, at(1, 1));
    assert!(first);
    assert_eq!(first, second);
    assert_eq!(step(Rule::Classic, &cells, size, at(1, 1)), first);
}

#[test]
fn classic_survival_and_death() {
    let size = board(3, 3);
    // Alive with one neighbour: dies.
    let lonely = grid(size, &[(1, 1), (0, 0)]);
    assert!(!compute_life_tile(&lonely, size, at(1, 1)));
    // Alive with two neighbours: survives.
    let pair = grid(size, &[(1, 1), (0, 0), (2, 2)]);
    assert!(compute_life_tile(&pair, size, at(1, 1)));
    // Alive with three neighbours: survives.
    let three = grid(size, &[(1, 1), (0, 0), (2, 2), (0, 2)]);
    assert!(compute_life_tile(&three, size, at(1, 1)));
    // Alive with four neighbours: dies.
    let crowd = grid(size, &[(1, 1), (0, 0), (2, 2), (0, 2), (2, 0)]);
    assert!(!compute_life_tile(&crowd, size, at(1, 1)));
    // Dead with two neighbours: stays dead.
    let two = grid(size, &[(0, 0), (2, 2)]);
    assert!(!compute_life_tile(&two, size, at(1, 1)));
    // Dead with four neighbours: stays dead.
    let four = grid(size, &[(0, 0), (2, 2), (0, 2), (2, 0)]);
    assert!(!compute_life_tile(&four, size, at(1, 1)));
}

#[test]
fn range_rule_on_a_row_of_five() {
    let size = board(5, 5);
    let cells = grid(size, &[(0, 2), (1, 2), (2, 2), (3, 2), (4, 2)]);
    // The three middle cells of the row have two live neighbours each.
    for x in 1..4 {
        assert_eq!(neighbor_sum(&cells, size, at(x, 2)), 2);
        assert!(!compute_range_tile(&cells, size, at(x, 2)));
        assert!(!step(Rule::Range, &cells, size, at(x, 2)));
        // Under the classic rule the same cells would live on.
        assert!(compute_life_tile(&cells, size, at(x, 2)));
    }
    // The ends of the row have one.
    assert_eq!(neighbor_sum(&cells, size, at(0, 2)), 1);
    assert_eq!(neighbor_sum(&cells, size, at(4, 2)), 1);
    assert!(!compute_range_tile(&cells, size, at(0, 2)));
    // Above and below the middle of the row there are three.
    for x in 1..4 {
        for y in [1, 3] {
            assert_eq!(neighbor_sum(&cells, size, at(x, y)), 3);
            assert!(compute_range_tile(&cells, size, at(x, y)));
        }
    }
    // Above and below the ends there are two.
    for x in [0, 4] {
        for y in [1, 3] {
            assert_eq!(neighbor_sum(&cells, size, at(x, y)), 2);
            assert!(!compute_range_tile(&cells, size, at(x, y)));
        }
    }
}

#[test]
fn range_rule_ignores_the_cell_itself() {
    let size = board(3, 3);
    for own in [0u8, 1u8] {
        for count in 0..=8usize {
            let ring = [(0, 0), (1, 0), (2, 0), (0, 1), (2, 1), (0, 2), (1, 2), (2, 2)];
            let mut cells = grid(size, &ring[..count]);
            cells[4] = own;
            assert_eq!(neighbor_sum(&cells, size, at(1, 1)), count as u32);
            assert_eq!(
                compute_range_tile(&cells, size, at(1, 1)),
                (3..=5).contains(&count)
            );
        }
    }
}

#[test]
fn classic_rule_for_every_count() {
    let size = board(3, 3);
    let ring = [(0, 0), (1, 0), (2, 0), (0, 1), (2, 1), (0, 2), (1, 2), (2, 2)];
    for count in 0..=8usize {
        let mut cells = grid(size, &ring[..count]);
        assert_eq!(compute_life_tile(&cells, size, at(1, 1)), count == 3);
        cells[4] = 1;
        assert_eq!(
            compute_life_tile(&cells, size, at(1, 1)),
            count == 2 || count == 3
        );
    }
}
