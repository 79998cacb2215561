use tictactoe_bot::{
    calculate_winner, create_components, get_style, next_player, Board, ButtonFace, ButtonStyle,
    Column, Coord, Diagonal, GameError, Player, Row, TicTacToe, Tile, Winning,
};

const ALL_ROWS: [Row; 3] = [Row::Top, Row::Middle, Row::Bottom];
const ALL_COLUMNS: [Column; 3] = [Column::Left, Column::Center, Column::Right];

fn board_of(marks: &[(Row, Column, Tile)]) -> Board {
    let mut b = Board::empty();
    for &(r, c, t) in marks {
        b.set(Coord(r, c), t);
    }
    b
}

fn line_coords(w: Winning) -> Vec<Coord> {
    match w {
        Winning::Vertical(c) => ALL_ROWS.iter().map(|&r| Coord(r, c)).collect(),
        Winning::Horizontal(r) => ALL_COLUMNS.iter().map(|&c| Coord(r, c)).collect(),
        Winning::Diagonal(Diagonal::TopLeftToBottomRight) => vec![
            Coord(Row::Top, Column::Left),
            Coord(Row::Middle, Column::Center),
            Coord(Row::Bottom, Column::Right),
        ],
        Winning::Diagonal(Diagonal::BottomLeftToTopRight) => vec![
            Coord(Row::Bottom, Column::Left),
            Coord(Row::Middle, Column::Center),
            Coord(Row::Top, Column::Right),
        ],
        Winning::Tie => vec![],
    }
}

const ALL_LINES: [Winning; 8] = [
    Winning::Vertical(Column::Left),
    Winning::Vertical(Column::Center),
    Winning::Vertical(Column::Right),
    Winning::Horizontal(Row::Top),
    Winning::Horizontal(Row::Middle),
    Winning::Horizontal(Row::Bottom),
    Winning::Diagonal(Diagonal::TopLeftToBottomRight),
    Winning::Diagonal(Diagonal::BottomLeftToTopRight),
];

#[test]
fn every_coordinate_round_trips() {
    for r in ALL_ROWS {
        for c in ALL_COLUMNS {
            let coord = Coord(r, c);
            let token = coord.encode();
            assert_eq!(Coord::decode(&token), Ok(coord));
            assert_eq!(Coord::from_action_id(&coord.action_id()), Ok(coord));
        }
    }
}

#[test]
fn tokens_name_column_then_row() {
    assert_eq!(Coord(Row::Top, Column::Left).encode(), "left_top");
    assert_eq!(Coord(Row::Bottom, Column::Center).encode(), "center_bottom");
    assert_eq!(Coord(Row::Middle, Column::Right).action_id(), "TicTacToe_right_middle");
    assert_eq!(Coord::decode("right_middle"), Ok(Coord(Row::Middle, Column::Right)));
}

#[test]
fn malformed_tokens_are_parse_errors() {
    assert_eq!(Coord::decode("lefttop"), Err(GameError::ParseError));
    assert_eq!(Coord::decode("Left_top"), Err(GameError::ParseError));
    assert_eq!(Coord::decode("left_up"), Err(GameError::ParseError));
    assert_eq!(Coord::decode("left_top_"), Err(GameError::ParseError));
    assert_eq!(Coord::decode(""), Err(GameError::ParseError));
    assert_eq!(Coord::from_action_id("TicTacToe__remove"), Err(GameError::ParseError));
    assert_eq!(Coord::from_action_id("nounderscore"), Err(GameError::ParseError));
    assert_eq!(Row::parse("middle"), Ok(Row::Middle));
    assert_eq!(Row::parse("Middle"), Err(GameError::ParseError));
    assert_eq!(Column::parse("center"), Ok(Column::Center));
    assert_eq!(Column::parse("centre"), Err(GameError::ParseError));
}

#[test]
fn empty_board_is_the_opponents_turn() {
    assert_eq!(next_player(&Board::empty()), Player::Opponent);
    let game = TicTacToe::default();
    assert_eq!(game.next_turn(), Player::Opponent);
    assert_eq!(game.winning(), None);
    let rows = create_components(&game);
    assert_eq!(rows.len(), 4);
    for row in &rows[..3] {
        assert_eq!(row.len(), 3);
        for b in row {
            assert_eq!(b.face, ButtonFace::Mark(Tile::Empty));
            assert!(!b.disabled);
            assert_eq!(b.style, ButtonStyle::Secondary);
        }
    }
    assert_eq!(game.status(11, 22), "\u{274C}<@22>'s turn");
}

#[test]
fn one_mark_makes_it_the_challengers_turn() {
    let b = board_of(&[(Row::Middle, Column::Center, Tile::O)]);
    assert_eq!(next_player(&b), Player::Challenger);
}

#[test]
fn parity_decides_the_turn() {
    let mut b = Board::empty();
    let cells: Vec<Coord> = ALL_ROWS
        .iter()
        .flat_map(|&r| ALL_COLUMNS.iter().map(move |&c| Coord(r, c)))
        .collect();
    for (n, &c) in cells.iter().enumerate() {
        let expected = if n % 2 == 0 { Player::Opponent } else { Player::Challenger };
        assert_eq!(next_player(&b), expected);
        assert_eq!(b.marked(), n);
        b.set(c, if n % 2 == 0 { Tile::X } else { Tile::O });
    }
    assert_eq!(next_player(&b), Player::Challenger);
}

#[test]
fn top_row_of_x_wins_on_the_top_row() {
    let b = board_of(&[
        (Row::Top, Column::Left, Tile::X),
        (Row::Top, Column::Center, Tile::X),
        (Row::Top, Column::Right, Tile::X),
    ]);
    assert_eq!(calculate_winner(&b), Some(Winning::Horizontal(Row::Top)));
}

#[test]
fn every_single_line_is_detected() {
    for w in ALL_LINES {
        for m in [Tile::X, Tile::O] {
            let mut b = Board::empty();
            for c in line_coords(w) {
                b.set(c, m);
            }
            assert_eq!(calculate_winner(&b), Some(w));
        }
    }
}

#[test]
fn full_board_without_line_is_a_tie() {
    // X O X / X O O / O X X
    let b = board_of(&[
        (Row::Top, Column::Left, Tile::X),
        (Row::Top, Column::Center, Tile::O),
        (Row::Top, Column::Right, Tile::X),
        (Row::Middle, Column::Left, Tile::X),
        (Row::Middle, Column::Center, Tile::O),
        (Row::Middle, Column::Right, Tile::O),
        (Row::Bottom, Column::Left, Tile::O),
        (Row::Bottom, Column::Center, Tile::X),
        (Row::Bottom, Column::Right, Tile::X),
    ]);
    assert_eq!(calculate_winner(&b), Some(Winning::Tie));
    let game = TicTacToe::new(b, None);
    assert_eq!(game.status(1, 2), "The game is a tie");
}

#[test]
fn board_with_an_empty_cell_is_never_a_tie() {
    let b = board_of(&[
        (Row::Top, Column::Left, Tile::X),
        (Row::Top, Column::Center, Tile::O),
        (Row::Top, Column::Right, Tile::X),
        (Row::Middle, Column::Left, Tile::X),
        (Row::Middle, Column::Center, Tile::O),
        (Row::Middle, Column::Right, Tile::O),
        (Row::Bottom, Column::Left, Tile::O),
        (Row::Bottom, Column::Center, Tile::X),
    ]);
    assert_eq!(calculate_winner(&b), None);
}

#[test]
fn full_board_with_a_line_is_won_not_tied() {
    // X X X / O O X / X O O
    let b = board_of(&[
        (Row::Top, Column::Left, Tile::X),
        (Row::Top, Column::Center, Tile::X),
        (Row::Top, Column::Right, Tile::X),
        (Row::Middle, Column::Left, Tile::O),
        (Row::Middle, Column::Center, Tile::O),
        (Row::Middle, Column::Right, Tile::X),
        (Row::Bottom, Column::Left, Tile::X),
        (Row::Bottom, Column::Center, Tile::O),
        (Row::Bottom, Column::Right, Tile::O),
    ]);
    assert_eq!(calculate_winner(&b), Some(Winning::Horizontal(Row::Top)));
}

#[test]
fn columns_are_looked_at_before_rows_and_diagonals() {
    let mut b = Board::empty();
    for r in ALL_ROWS {
        b.set(Coord(r, Column::Right), Tile::O);
    }
    for c in ALL_COLUMNS {
        b.set(Coord(Row::Bottom, c), Tile::O);
    }
    assert_eq!(calculate_winner(&b), Some(Winning::Vertical(Column::Right)));
    let mut b = Board::empty();
    for c in ALL_COLUMNS {
        b.set(Coord(Row::Top, c), Tile::X);
        b.set(Coord(Row::Bottom, c), Tile::X);
    }
    assert_eq!(calculate_winner(&b), Some(Winning::Horizontal(Row::Bottom)));
}

#[test]
fn clicking_places_the_movers_mark() {
    let game = TicTacToe::new(Board::empty(), Some(Coord(Row::Middle, Column::Center)));
    assert_eq!(game.state().get(Coord(Row::Middle, Column::Center)), Tile::X);
    assert_eq!(game.next_turn(), Player::Challenger);
    let game = TicTacToe::new(game.state(), Some(Coord(Row::Top, Column::Left)));
    assert_eq!(game.state().get(Coord(Row::Top, Column::Left)), Tile::O);
    assert_eq!(game.next_turn(), Player::Opponent);
}

#[test]
fn clicking_a_marked_cell_overwrites_it() {
    let b = board_of(&[(Row::Top, Column::Left, Tile::X)]);
    let game = TicTacToe::new(b, Some(Coord(Row::Top, Column::Left)));
    assert_eq!(game.state().get(Coord(Row::Top, Column::Left)), Tile::O);
    assert_eq!(game.state().marked(), 1);
}

#[test]
fn rendering_disables_marked_cells_and_highlights_the_line() {
    let b = board_of(&[
        (Row::Bottom, Column::Left, Tile::O),
        (Row::Middle, Column::Center, Tile::O),
        (Row::Top, Column::Right, Tile::O),
        (Row::Top, Column::Left, Tile::X),
        (Row::Middle, Column::Left, Tile::X),
    ]);
    let game = TicTacToe::new(b, None);
    let w = Winning::Diagonal(Diagonal::BottomLeftToTopRight);
    assert_eq!(game.winning(), Some(w));
    let rows = create_components(&game);
    let display_rows = [Row::Bottom, Row::Middle, Row::Top];
    for (i, row) in rows[..3].iter().enumerate() {
        for (j, button) in row.iter().enumerate() {
            let c = Coord(display_rows[i], ALL_COLUMNS[j]);
            assert_eq!(button.custom_id, c.action_id());
            assert_eq!(button.face, ButtonFace::Mark(b.get(c)));
            assert!(button.disabled);
            let on_line = line_coords(w).contains(&c);
            let expected = if on_line { ButtonStyle::Success } else { ButtonStyle::Secondary };
            assert_eq!(button.style, expected);
        }
    }
    assert_eq!(rows[3].len(), 1);
    assert_eq!(rows[3][0].custom_id, "TicTacToe__remove");
    assert_eq!(rows[3][0].face, ButtonFace::Label("Remove".to_string()));
    assert!(!rows[3][0].disabled);
    assert_eq!(rows[3][0].style, ButtonStyle::Danger);
    assert_eq!(game.status(5, 6), "\u{2B55}<@5> is the winner!");
}

#[test]
fn rendering_an_unfinished_game_enables_only_empty_cells() {
    let b = board_of(&[(Row::Top, Column::Left, Tile::X)]);
    let game = TicTacToe::new(b, None);
    let rows = create_components(&game);
    // The top row is drawn last.
    assert!(rows[2][0].disabled);
    assert_eq!(rows[2][0].face, ButtonFace::Mark(Tile::X));
    assert!(!rows[2][1].disabled);
    assert!(!rows[0][0].disabled);
    for row in &rows[..3] {
        for button in row {
            assert_eq!(button.style, ButtonStyle::Secondary);
        }
    }
    assert_eq!(game.status(5, 6), "\u{2B55}<@5>'s turn");
}

#[test]
fn style_follows_the_winning_line() {
    let center = Coord(Row::Middle, Column::Center);
    let corner = Coord(Row::Top, Column::Left);
    assert_eq!(
        get_style(&center, &Winning::Diagonal(Diagonal::BottomLeftToTopRight)),
        ButtonStyle::Success
    );
    assert_eq!(
        get_style(&corner, &Winning::Diagonal(Diagonal::BottomLeftToTopRight)),
        ButtonStyle::Secondary
    );
    assert_eq!(
        get_style(&corner, &Winning::Diagonal(Diagonal::TopLeftToBottomRight)),
        ButtonStyle::Success
    );
    assert_eq!(get_style(&corner, &Winning::Vertical(Column::Left)), ButtonStyle::Success);
    assert_eq!(get_style(&corner, &Winning::Horizontal(Row::Bottom)), ButtonStyle::Secondary);
    assert_eq!(get_style(&center, &Winning::Tie), ButtonStyle::Secondary);
}

#[test]
fn glyphs_round_trip_through_tiles() {
    for t in [Tile::X, Tile::O, Tile::Empty] {
        assert_eq!(Tile::from_glyph(t.glyph()), t);
    }
    assert_eq!(Tile::X.glyph(), "\u{274C}");
    assert_eq!(Tile::O.glyph(), "\u{2B55}");
    assert_eq!(Tile::Empty.glyph(), "\u{2B1B}");
    assert_eq!(Tile::from_glyph("x"), Tile::Empty);
    assert_eq!(Tile::from_glyph(""), Tile::Empty);
    assert_eq!(Player::Opponent.mark(), Tile::X);
    assert_eq!(Player::Challenger.mark(), Tile::O);
}

#[test]
fn challenge_message_mentions_the_target_twice() {
    assert_eq!(
        TicTacToe::challenge(1234567890123),
        "<@1234567890123> has been challenged to TicTacToe!\n\u{274C}<@1234567890123>'s turn"
    );
    assert_eq!(TicTacToe::challenge(0), "<@0> has been challenged to TicTacToe!\n\u{274C}<@0>'s turn");
    assert_eq!(
        TicTacToe::challenge(u64::MAX),
        "<@18446744073709551615> has been challenged to TicTacToe!\n\u{274C}<@18446744073709551615>'s turn"
    );
}
