use fog_of_chess::{Board, Piece, Player, Unit};

fn piece(unit: Unit, player: Player) -> Piece {
    Piece { unit, player, moved: 0 }
}

fn count_pieces(board: &Board) -> usize {
    let mut walk = board.iter();
    let mut n = 0;
    while let Some(position) = walk.next() {
        if position.piece.is_some() {
            n += 1;
        }
    }
    n
}

#[test]
fn get_outside_the_grid_is_none() {
    let board = Board::new();
    for pos in [(-1, 0), (0, -1), (8, 0), (0, 8), (-1, -1), (8, 8), (i32::MIN, 3), (3, i32::MAX)] {
        assert_eq!(board.get(pos), None);
    }
}

#[test]
fn get_on_the_grid_returns_the_piece() {
    let board = Board::new();
    assert_eq!(board.get((4, 0)), Some(&piece(Unit::King, Player::White)));
    assert_eq!(board.get((3, 7)), Some(&piece(Unit::Queen, Player::Black)));
    assert_eq!(board.get((4, 4)), None);
}

#[test]
fn default_board_is_empty() {
    let board = Board::default();
    assert_eq!(count_pieces(&board), 0);
}

#[test]
fn standard_layout_has_the_conventional_arrangement() {
    let board = Board::new();
    assert_eq!(count_pieces(&board), 32);
    let back = [
        Unit::Rook,
        Unit::Knight,
        Unit::Bishop,
        Unit::Queen,
        Unit::King,
        Unit::Bishop,
        Unit::Knight,
        Unit::Rook,
    ];
    for x in 0..8 {
        assert_eq!(board.get((x, 0)), Some(&piece(back[x as usize], Player::White)));
        assert_eq!(board.get((x, 1)), Some(&piece(Unit::Pawn, Player::White)));
        assert_eq!(board.get((x, 6)), Some(&piece(Unit::Pawn, Player::Black)));
        assert_eq!(board.get((x, 7)), Some(&piece(back[x as usize], Player::Black)));
        for y in 2..6 {
            assert_eq!(board.get((x, y)), None);
        }
    }
}

#[test]
fn castle_scenario_holds_a_rook_and_a_king() {
    let board = Board::scenario("castle").expect("the castle scenario exists");
    assert_eq!(count_pieces(&board), 2);
    assert_eq!(board.get((0, 0)), Some(&piece(Unit::Rook, Player::White)));
    assert_eq!(board.get((3, 0)), Some(&piece(Unit::King, Player::White)));
    assert_eq!(board, Board::castle_test());
}

#[test]
fn unknown_scenario_is_refused() {
    assert_eq!(Board::scenario("stalemate"), None);
    assert_eq!(Board::scenario(""), None);
    assert_eq!(Board::scenario("Castle"), None);
    assert_eq!(Board::scenario("castle "), None);
}

#[test]
fn set_overwrites_the_cell() {
    let mut board = Board::new();
    board.set((0, 0), piece(Unit::Queen, Player::Black));
    assert_eq!(board.get((0, 0)), Some(&piece(Unit::Queen, Player::Black)));
    assert_eq!(count_pieces(&board), 32);
    board.set((4, 4), piece(Unit::Pawn, Player::White));
    assert_eq!(board.get((4, 4)), Some(&piece(Unit::Pawn, Player::White)));
    assert_eq!(count_pieces(&board), 33);
}

#[test]
fn set_outside_the_grid_does_nothing() {
    let mut board = Board::new();
    board.set((8, 0), piece(Unit::Queen, Player::Black));
    board.set((0, -1), piece(Unit::Queen, Player::Black));
    assert_eq!(board, Board::new());
}

#[test]
fn move_piece_relocates_and_counts() {
    let mut board = Board::new();
    board.move_piece((4, 1), (4, 3));
    assert_eq!(board.get((4, 1)), None);
    assert_eq!(
        board.get((4, 3)),
        Some(&Piece { unit: Unit::Pawn, player: Player::White, moved: 1 })
    );
    assert_eq!(count_pieces(&board), 32);
}

#[test]
fn move_piece_discards_what_stood_on_the_destination() {
    let mut board = Board::new();
    board.move_piece((0, 0), (0, 7));
    assert_eq!(board.get((0, 0)), None);
    assert_eq!(
        board.get((0, 7)),
        Some(&Piece { unit: Unit::Rook, player: Player::White, moved: 1 })
    );
    assert_eq!(count_pieces(&board), 31);
}

#[test]
fn move_piece_onto_its_own_cell_only_counts() {
    let mut board = Board::new();
    board.move_piece((0, 0), (0, 0));
    assert_eq!(
        board.get((0, 0)),
        Some(&Piece { unit: Unit::Rook, player: Player::White, moved: 1 })
    );
    assert_eq!(count_pieces(&board), 32);
}

#[test]
fn move_piece_outside_the_grid_leaves_the_board_unchanged() {
    let mut board = Board::new();
    board.move_piece((0, 0), (0, 8));
    board.move_piece((0, 0), (-1, 0));
    board.move_piece((8, 0), (0, 0));
    board.move_piece((0, -1), (4, 4));
    board.move_piece((-3, 9), (12, -7));
    assert_eq!(board, Board::new());
}

#[test]
fn move_piece_from_an_empty_cell_leaves_the_board_unchanged() {
    let mut board = Board::new();
    board.move_piece((4, 4), (0, 0));
    assert_eq!(board, Board::new());
}

#[test]
fn counter_adds_up_over_several_relocations() {
    let mut board = Board::default();
    board.set((0, 0), Piece { unit: Unit::Rook, player: Player::White, moved: 5 });
    board.set((7, 7), Piece { unit: Unit::King, player: Player::Black, moved: 2 });
    board.move_piece((0, 0), (0, 4));
    board.move_piece((0, 4), (3, 4));
    board.move_piece((3, 4), (3, 1));
    assert_eq!(
        board.get((3, 1)),
        Some(&Piece { unit: Unit::Rook, player: Player::White, moved: 8 })
    );
    assert_eq!(
        board.get((7, 7)),
        Some(&Piece { unit: Unit::King, player: Player::Black, moved: 2 })
    );
}

#[test]
fn walk_covers_every_cell_once_in_row_major_order() {
    let board = Board::new();
    let mut walk = board.iter();
    let mut n = 0usize;
    while let Some(position) = walk.next() {
        assert_eq!(position.x, n % 8);
        assert_eq!(position.y, n / 8);
        assert_eq!(position.piece, board.get((position.x as i32, position.y as i32)));
        n += 1;
    }
    assert_eq!(n, 64);
    assert!(walk.next().is_none());
    assert!(walk.next().is_none());
}

#[test]
fn walk_can_be_started_again() {
    let board = Board::castle_test();
    let mut first = board.iter();
    let mut second = board.iter();
    let a = first.next().expect("a first cell");
    let b = second.next().expect("a first cell");
    assert_eq!((a.x, a.y, a.piece), (0, 0, b.piece));
    assert_eq!((b.x, b.y), (0, 0));
    assert_eq!(a.piece, Some(&piece(Unit::Rook, Player::White)));
}

#[test]
fn clone_is_the_same_board() {
    let mut board = Board::new();
    board.move_piece((1, 0), (2, 2));
    assert_eq!(board.clone(), board);
}
