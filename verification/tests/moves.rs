use fog_of_chess::{Board, Game, Piece, Player, Selection, State, Unit};

fn moves_game(board: Board, turn: Player) -> Game {
    let state = State {
        board,
        turn,
        selected: Selection::new(),
        fog: true,
        single_player: false,
        debug_stats: false,
    };
    Game { initial: state.clone(), state }
}

fn placed(pieces: &[((i32, i32), Unit, Player, u32)]) -> Board {
    let mut board = Board::default();
    for (pos, unit, player, moved) in pieces {
        board.set(*pos, Piece { unit: *unit, player: *player, moved: *moved });
    }
    board
}

fn sorted(mut cells: Vec<(i32, i32)>) -> Vec<(i32, i32)> {
    cells.sort();
    cells
}

fn ray_cells(from: (i32, i32), step: (i32, i32), n: i32) -> Vec<(i32, i32)> {
    (1..=n).map(|k| (from.0 + k * step.0, from.1 + k * step.1)).collect()
}

#[test]
fn empty_cell_has_no_moves() {
    let game = moves_game(Board::new(), Player::White);
    assert_eq!(game.moves((4, 4)), vec![]);
}

#[test]
fn position_outside_the_grid_has_no_moves() {
    let game = moves_game(Board::new(), Player::White);
    assert_eq!(game.moves((-1, 0)), vec![]);
    assert_eq!(game.moves((0, 8)), vec![]);
    assert_eq!(game.moves((i32::MAX, i32::MIN)), vec![]);
}

#[test]
fn rook_ray_stops_at_the_first_piece() {
    let board = placed(&[
        ((3, 3), Unit::Rook, Player::White, 0),
        ((3, 6), Unit::Pawn, Player::Black, 0),
    ]);
    let game = moves_game(board, Player::White);
    let targets = game.moves((3, 3));
    assert!(targets.contains(&(3, 4)));
    assert!(targets.contains(&(3, 5)));
    assert!(targets.contains(&(3, 6)));
    assert!(!targets.contains(&(3, 7)));
    let mut expected = vec![(3, 4), (3, 5), (3, 6)];
    expected.extend(ray_cells((3, 3), (0, -1), 7));
    expected.extend(ray_cells((3, 3), (1, 0), 7));
    expected.extend(ray_cells((3, 3), (-1, 0), 7));
    assert_eq!(sorted(targets), sorted(expected));
}

#[test]
fn rook_ray_stops_before_an_ally() {
    let board = placed(&[
        ((3, 3), Unit::Rook, Player::White, 0),
        ((3, 6), Unit::Pawn, Player::White, 0),
    ]);
    let game = moves_game(board, Player::White);
    let targets = game.moves((3, 3));
    assert!(targets.contains(&(3, 5)));
    assert!(!targets.contains(&(3, 6)));
    assert!(!targets.contains(&(3, 7)));
    assert_eq!(targets.len(), 2 + 7 + 7 + 7);
}

#[test]
fn rook_hemmed_in_at_the_start_has_no_moves() {
    let game = moves_game(Board::new(), Player::White);
    let targets = game.moves((7, 0));
    assert_eq!(sorted(targets), sorted(ray_cells((7, 0), (1, 0), 7).into_iter().chain(ray_cells((7, 0), (0, -1), 7)).collect()));
}

#[test]
fn bishop_moves_along_the_diagonals() {
    let board = placed(&[
        ((2, 2), Unit::Bishop, Player::Black, 0),
        ((4, 4), Unit::Pawn, Player::White, 0),
        ((1, 3), Unit::Pawn, Player::Black, 0),
    ]);
    let game = moves_game(board, Player::Black);
    let mut expected = vec![(3, 3), (4, 4)];
    expected.extend(ray_cells((2, 2), (-1, -1), 7));
    expected.extend(ray_cells((2, 2), (1, -1), 7));
    assert_eq!(sorted(game.moves((2, 2))), sorted(expected));
}

#[test]
fn queen_moves_along_all_eight_rays() {
    let board = placed(&[((4, 4), Unit::Queen, Player::White, 3)]);
    let game = moves_game(board, Player::White);
    let mut expected = vec![];
    for step in [(1, 0), (-1, 0), (0, 1), (0, -1), (1, 1), (-1, -1), (-1, 1), (1, -1)] {
        expected.extend(ray_cells((4, 4), step, 7));
    }
    let targets = game.moves((4, 4));
    assert_eq!(targets.len(), 56);
    assert_eq!(sorted(targets), sorted(expected));
}

#[test]
fn knight_has_its_eight_jumps_even_off_the_grid() {
    let board = placed(&[((0, 0), Unit::Knight, Player::White, 0)]);
    let game = moves_game(board, Player::White);
    let expected =
        vec![(2, -1), (2, 1), (-2, -1), (-2, 1), (1, 2), (-1, 2), (1, -2), (-1, -2)];
    assert_eq!(sorted(game.moves((0, 0))), sorted(expected));
}

#[test]
fn knight_does_not_jump_onto_an_ally() {
    let game = moves_game(Board::new(), Player::White);
    let expected = vec![(0, 2), (2, 2), (3, -1), (-1, -1), (-1, 1), (0, -2), (2, -2)];
    assert_eq!(sorted(game.moves((1, 0))), sorted(expected));
}

#[test]
fn king_moves_to_the_cells_around_it() {
    let board = placed(&[
        ((4, 4), Unit::King, Player::White, 0),
        ((5, 5), Unit::Pawn, Player::White, 0),
        ((3, 3), Unit::Pawn, Player::Black, 0),
    ]);
    let game = moves_game(board, Player::White);
    let expected = vec![(3, 3), (5, 3), (3, 5), (5, 4), (3, 4), (4, 5), (4, 3)];
    assert_eq!(sorted(game.moves((4, 4))), sorted(expected));
}

#[test]
fn unmoved_pawn_may_step_twice() {
    let board = placed(&[((4, 1), Unit::Pawn, Player::White, 0)]);
    let game = moves_game(board, Player::White);
    let targets = game.moves((4, 1));
    assert!(targets.contains(&(4, 3)));
    assert_eq!(sorted(targets), vec![(4, 2), (4, 3)]);
}

#[test]
fn moved_pawn_steps_once() {
    let board = placed(&[((4, 2), Unit::Pawn, Player::White, 1)]);
    let game = moves_game(board, Player::White);
    assert_eq!(game.moves((4, 2)), vec![(4, 3)]);
}

#[test]
fn black_pawn_advances_toward_row_zero() {
    let board = placed(&[((2, 6), Unit::Pawn, Player::Black, 0)]);
    let game = moves_game(board, Player::Black);
    assert_eq!(sorted(game.moves((2, 6))), vec![(2, 4), (2, 5)]);
}

#[test]
fn blocked_pawn_has_no_step() {
    let board = placed(&[
        ((4, 1), Unit::Pawn, Player::White, 0),
        ((4, 2), Unit::Pawn, Player::Black, 0),
    ]);
    let game = moves_game(board, Player::White);
    assert_eq!(game.moves((4, 1)), vec![]);
}

#[test]
fn pawn_double_step_needs_an_empty_landing_cell() {
    let board = placed(&[
        ((4, 1), Unit::Pawn, Player::White, 0),
        ((4, 3), Unit::Pawn, Player::White, 0),
    ]);
    let game = moves_game(board, Player::White);
    assert_eq!(game.moves((4, 1)), vec![(4, 2)]);
}

#[test]
fn pawn_captures_on_the_forward_diagonals_only() {
    let board = placed(&[
        ((4, 4), Unit::Pawn, Player::White, 2),
        ((3, 5), Unit::Knight, Player::Black, 0),
        ((5, 5), Unit::Knight, Player::White, 0),
        ((3, 3), Unit::Knight, Player::Black, 0),
        ((4, 5), Unit::Knight, Player::Black, 0),
    ]);
    let game = moves_game(board, Player::White);
    assert_eq!(game.moves((4, 4)), vec![(3, 5)]);
}

#[test]
fn pawn_on_the_far_row_aims_beyond_the_grid() {
    let board = placed(&[((2, 7), Unit::Pawn, Player::White, 4)]);
    let game = moves_game(board, Player::White);
    assert_eq!(game.moves((2, 7)), vec![(2, 8)]);
}

#[test]
fn allies_are_told_by_the_player_to_move() {
    let board = placed(&[
        ((4, 6), Unit::Pawn, Player::Black, 0),
        ((3, 5), Unit::Knight, Player::White, 0),
        ((4, 4), Unit::Rook, Player::White, 0),
    ]);
    let game = moves_game(board, Player::White);
    assert_eq!(game.moves((4, 6)), vec![(4, 5)]);
}

#[test]
fn no_target_is_listed_twice() {
    let game = moves_game(placed(&[((4, 4), Unit::Queen, Player::White, 0)]), Player::White);
    let targets = sorted(game.moves((4, 4)));
    let mut distinct = targets.clone();
    distinct.dedup();
    assert_eq!(targets, distinct);
}

#[test]
fn line_of_sight_adds_the_cells_around() {
    let board = placed(&[((4, 1), Unit::Pawn, Player::White, 0)]);
    let game = moves_game(board, Player::White);
    let mut seen = sorted(game.line_of_sight((4, 1)));
    seen.dedup();
    let expected = sorted(vec![
        (4, 2),
        (4, 3),
        (3, 0),
        (4, 0),
        (5, 0),
        (3, 1),
        (5, 1),
        (3, 2),
        (5, 2),
    ]);
    assert_eq!(seen, expected);
}

#[test]
fn line_of_sight_of_an_empty_cell_is_the_cells_around() {
    let game = moves_game(Board::default(), Player::White);
    let seen = sorted(game.line_of_sight((0, 0)));
    let expected =
        sorted(vec![(1, 1), (-1, -1), (1, -1), (-1, 1), (1, 0), (-1, 0), (0, 1), (0, -1)]);
    assert_eq!(seen, expected);
}

#[test]
fn contains_ally_and_enemy_follow_the_turn() {
    let mut game = moves_game(Board::new(), Player::White);
    assert!(game.contains_ally((0, 0)));
    assert!(!game.contains_enemy((0, 0)));
    assert!(game.contains_enemy((0, 7)));
    assert!(!game.contains_ally((0, 7)));
    assert!(!game.contains_ally((4, 4)));
    assert!(!game.contains_enemy((4, 4)));
    game.state.turn = Player::Black;
    assert!(game.contains_enemy((0, 0)));
    assert!(game.contains_ally((0, 7)));
}

#[test]
fn nothing_is_held_outside_the_grid() {
    let game = moves_game(Board::new(), Player::White);
    for pos in [(-1, 0), (0, -1), (8, 7), (7, 8), (i32::MIN, i32::MAX)] {
        assert!(!game.contains_ally(pos));
        assert!(!game.contains_enemy(pos));
    }
}

#[test]
fn is_enemy_is_the_other_player() {
    let game = moves_game(Board::new(), Player::Black);
    assert!(game.is_enemy(&Player::White));
    assert!(!game.is_enemy(&Player::Black));
    assert_eq!(Player::White.opponent(), Player::Black);
    assert_eq!(Player::Black.opponent(), Player::White);
}

#[test]
fn line_of_sight_lists_no_cell_twice() {
    let board = placed(&[((4, 4), Unit::King, Player::White, 0)]);
    let game = moves_game(board, Player::White);
    let seen = game.line_of_sight((4, 4));
    assert_eq!(seen.len(), 8);
    let expected = vec![(3, 3), (3, 4), (3, 5), (4, 3), (4, 5), (5, 3), (5, 4), (5, 5)];
    assert_eq!(sorted(seen), expected);
}
