use fog_of_chess::{Board, FogMask, Game, Piece, Player, Selection, State, Unit, Visibility};

fn fog_game(board: Board, turn: Player) -> Game {
    let state = State {
        board,
        turn,
        selected: Selection::new(),
        fog: true,
        single_player: false,
        debug_stats: false,
    };
    Game { initial: state.clone(), state }
}

fn clear_cells(mask: &FogMask) -> Vec<(i32, i32)> {
    let mut cells = vec![];
    for y in 0..8 {
        for x in 0..8 {
            if mask.get((x, y)) == Visibility::Clear {
                cells.push((x, y));
            }
        }
    }
    cells
}

#[test]
fn lone_king_sees_its_cell_and_the_cells_around() {
    let mut board = Board::default();
    board.set((4, 4), Piece { unit: Unit::King, player: Player::White, moved: 0 });
    let game = fog_game(board, Player::White);
    let mask = game.visibility();
    let expected =
        vec![(3, 3), (4, 3), (5, 3), (3, 4), (4, 4), (5, 4), (3, 5), (4, 5), (5, 5)];
    assert_eq!(clear_cells(&mask), expected);
    assert_eq!(mask.get((4, 4)), Visibility::Clear);
    assert_eq!(mask.get((6, 4)), Visibility::Fog);
    assert_eq!(mask.get((0, 0)), Visibility::Fog);
}

#[test]
fn king_in_the_corner_sees_four_cells() {
    let mut board = Board::default();
    board.set((0, 0), Piece { unit: Unit::King, player: Player::White, moved: 0 });
    let game = fog_game(board, Player::White);
    assert_eq!(clear_cells(&game.visibility()), vec![(0, 0), (1, 0), (0, 1), (1, 1)]);
}

#[test]
fn enemy_pieces_light_nothing() {
    let mut board = Board::default();
    board.set((4, 4), Piece { unit: Unit::King, player: Player::Black, moved: 0 });
    let game = fog_game(board, Player::White);
    assert_eq!(clear_cells(&game.visibility()), vec![]);
}

#[test]
fn empty_board_is_all_fog() {
    let game = fog_game(Board::default(), Player::White);
    assert_eq!(clear_cells(&game.visibility()), vec![]);
    assert_eq!(clear_cells(&FogMask::new()), vec![]);
}

#[test]
fn opening_position_shows_the_near_half_less_a_row() {
    let game = fog_game(Board::new(), Player::White);
    let mask = game.visibility();
    for x in 0..8 {
        for y in 0..8 {
            let want = if y <= 3 { Visibility::Clear } else { Visibility::Fog };
            assert_eq!(mask.get((x, y)), want, "cell ({}, {})", x, y);
        }
    }
    let game = fog_game(Board::new(), Player::Black);
    let mask = game.visibility();
    for x in 0..8 {
        for y in 0..8 {
            let want = if y >= 4 { Visibility::Clear } else { Visibility::Fog };
            assert_eq!(mask.get((x, y)), want, "cell ({}, {})", x, y);
        }
    }
}

#[test]
fn rook_sees_along_its_rays_up_to_the_first_piece() {
    let mut board = Board::default();
    board.set((0, 0), Piece { unit: Unit::Rook, player: Player::White, moved: 0 });
    board.set((0, 3), Piece { unit: Unit::Pawn, player: Player::Black, moved: 0 });
    let game = fog_game(board, Player::White);
    let mut expected = vec![(0, 0), (1, 1), (0, 1), (0, 2), (0, 3)];
    expected.extend((1..8).map(|x| (x, 0)));
    expected.sort_by_key(|c| (c.1, c.0));
    assert_eq!(clear_cells(&game.visibility()), expected);
}

#[test]
fn mask_is_fog_outside_the_grid() {
    let game = fog_game(Board::new(), Player::White);
    let mask = game.visibility();
    for pos in [(-1, 0), (0, -1), (8, 0), (0, 8)] {
        assert_eq!(mask.get(pos), Visibility::Fog);
    }
}

#[test]
fn uncover_brings_one_cell_into_view() {
    let mut mask = FogMask::new();
    mask.uncover((2, 5));
    mask.uncover((2, 5));
    mask.uncover((9, 9));
    mask.uncover((-1, 3));
    assert_eq!(clear_cells(&mask), vec![(2, 5)]);
}

#[test]
fn visibility_does_not_depend_on_the_fog_flag() {
    let mut game = fog_game(Board::new(), Player::White);
    let with_fog = clear_cells(&game.visibility());
    game.state.fog = false;
    assert_eq!(clear_cells(&game.visibility()), with_fog);
}
