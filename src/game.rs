//! A game: a board together with its result and whose turn it is, and how a
//! game is drawn as buttons and described in text.

use vstd::prelude::*;

use crate::board::{
    empty_board, glyph, mark_of, next_player, next_to_move, role_of, tile_at, with_tile, Board,
    Player, Tile,
};
use crate::coord::{action_id, game_tag, Column, Coord, Row};
use crate::text::{mention, push_mention};
use crate::winner::{
    calculate_winner, get_style, line_mark, outcome, style_for, ButtonStyle, Winning,
};

verus! {

/// The board `b` after the cell `clicked`, if any, was clicked: the mark of
/// the role whose turn it was on `b` is put there, over whatever it held.
pub open spec fn after_click(b: Seq<Tile>, clicked: Option<Coord>) -> Seq<Tile> {
    match clicked {
        Some(c) => with_tile(b, c, mark_of(next_to_move(b))),
        None => b,
    }
}

/// A game as derived from its board: the board, its result, and whose turn
/// it is. The last two are never stored apart from the board they follow.
#[derive(Debug, Clone, Copy)]
pub struct TicTacToe {
    state: Board,
    winning: Option<Winning>,
    next_turn: Player,
}

impl View for TicTacToe {
    type V = Seq<Tile>;

    closed spec fn view(&self) -> Seq<Tile> {
        self.state@
    }
}

impl TicTacToe {
    #[verifier::type_invariant]
    spec fn derived_from_board(&self) -> bool {
        &&& self.winning == outcome(self.state@)
        &&& self.next_turn == next_to_move(self.state@)
    }

    /// The game on `state` after the cell `clicked_tile`, if any, was clicked.
    /// The mark placed is that of the role whose turn it was on `state`; a
    /// marked cell that is clicked again is overwritten.
    pub fn new(state: Board, clicked_tile: Option<Coord>) -> (r: TicTacToe)
        ensures
            r@ == after_click(state@, clicked_tile),
    {
        let mut state = state;
        if let Some(clicked) = clicked_tile {
            let mover = next_player(&state);
            state.set(clicked, mover.mark());
        }
        TicTacToe { next_turn: next_player(&state), winning: calculate_winner(&state), state }
    }

    /// The board of this game.
    pub fn state(&self) -> (r: Board)
        ensures
            r@ == self@,
    {
        self.state
    }

    /// The result of this game so far.
    pub fn winning(&self) -> (r: Option<Winning>)
        ensures
            r == outcome(self@),
    {
        proof {
            use_type_invariant(self);
        }
        self.winning
    }

    /// Whose turn it is.
    pub fn next_turn(&self) -> (r: Player)
        ensures
            r == next_to_move(self@),
    {
        proof {
            use_type_invariant(self);
        }
        self.next_turn
    }
}

impl Default for TicTacToe {
    /// The game before any move.
    fn default() -> (r: TicTacToe)
        ensures
            r@ == empty_board(),
    {
        TicTacToe::new(Board::empty(), None)
    }
}

/// What a button shows: a mark's glyph, or a text label.
#[derive(Debug, PartialEq, Eq)]
pub enum ButtonFace {
    Mark(Tile),
    Label(String),
}

/// A button to draw under the game's message.
#[derive(Debug)]
pub struct Button {
    pub custom_id: String,
    pub face: ButtonFace,
    pub disabled: bool,
    pub style: ButtonStyle,
}

/// The rows in the order they are drawn.
pub open spec fn display_rows() -> Seq<Row> {
    seq![Row::Bottom, Row::Middle, Row::Top]
}

/// The columns in the order they are drawn.
pub open spec fn display_columns() -> Seq<Column> {
    seq![Column::Left, Column::Center, Column::Right]
}

/// The action identifier of the button that removes the game.
pub open spec fn remove_id() -> Seq<char> {
    game_tag() + seq!['_', '_', 'r', 'e', 'm', 'o', 'v', 'e']
}

/// Whether `b` is the button of cell `c` on the board `board`: it names the
/// cell, shows its mark, is disabled once the cell is marked or the game has a
/// result, and is highlighted when it lies on the winning line.
pub open spec fn is_cell_button(b: Button, c: Coord, board: Seq<Tile>) -> bool {
    &&& b.custom_id@ == action_id(c)
    &&& b.face == ButtonFace::Mark(tile_at(board, c))
    &&& b.disabled == (tile_at(board, c) != Tile::Empty || outcome(board) is Some)
    &&& b.style == match outcome(board) {
        Some(w) => style_for(c, w),
        None => ButtonStyle::Secondary,
    }
}

/// Whether `b` is the enabled button that removes the game.
pub open spec fn is_remove_button(b: Button) -> bool {
    &&& b.custom_id@ == remove_id()
    &&& b.face matches ButtonFace::Label(l) && l@ == seq!['R', 'e', 'm', 'o', 'v', 'e']
    &&& !b.disabled
    &&& b.style == ButtonStyle::Danger
}

/// The identifier of the button that removes the game.
pub fn remove_action_id() -> (r: &'static str)
    ensures
        r@ == remove_id(),
{
    proof {
        reveal_strlit("TicTacToe__remove");
    }
    assert("TicTacToe__remove"@ =~= remove_id());
    "TicTacToe__remove"
}

fn cell_button(game: &TicTacToe, c: Coord) -> (r: Button)
    ensures
        is_cell_button(r, c, game@),
{
    let board = game.state();
    let tile = board.get(c);
    let winning = game.winning();
    let style = match &winning {
        Some(value) => get_style(&c, value),
        None => ButtonStyle::Secondary,
    };
    Button {
        custom_id: c.action_id(),
        face: ButtonFace::Mark(tile),
        disabled: tile != Tile::Empty || winning.is_some(),
        style,
    }
}

fn remove_button() -> (r: Button)
    ensures
        is_remove_button(r),
{
    proof {
        reveal_strlit("Remove");
    }
    let label = String::from_str("Remove");
    assert(label@ =~= seq!['R', 'e', 'm', 'o', 'v', 'e']);
    Button {
        custom_id: String::from_str(remove_action_id()),
        face: ButtonFace::Label(label),
        disabled: false,
        style: ButtonStyle::Danger,
    }
}

/// The buttons that draw `game`: three rows of three cells, bottom row first
/// and left column first, then a row holding the button that removes the
/// game. A cell is disabled exactly when it is marked or the game has a
/// result, and highlighted exactly when it lies on the winning line.
pub fn create_components(game: &TicTacToe) -> (r: Vec<Vec<Button>>)
    ensures
        r@.len() == 4,
        forall|i: int| 0 <= i < 3 ==> (#[trigger] r@[i])@.len() == 3,
        forall|i: int, j: int|
            0 <= i < 3 && 0 <= j < 3 ==> is_cell_button(
                #[trigger] r@[i]@[j],
                Coord(display_rows()[i], display_columns()[j]),
                game@,
            ),
        r@[3]@.len() == 1,
        is_remove_button(r@[3]@[0]),
{
    let rows = [Row::Bottom, Row::Middle, Row::Top];
    let columns = [Column::Left, Column::Center, Column::Right];
    assert(rows@ =~= display_rows());
    assert(columns@ =~= display_columns());
    let mut r: Vec<Vec<Button>> = Vec::new();
    let mut i: usize = 0;
    while i < 3
        invariant
            i <= 3,
            rows@ == display_rows(),
            columns@ == display_columns(),
            r@.len() == i,
            forall|k: int| 0 <= k < i ==> (#[trigger] r@[k])@.len() == 3,
            forall|k: int, j: int|
                0 <= k < i && 0 <= j < 3 ==> is_cell_button(
                    #[trigger] r@[k]@[j],
                    Coord(display_rows()[k], display_columns()[j]),
                    game@,
                ),
        decreases 3 - i,
    {
        let mut row: Vec<Button> = Vec::new();
        let mut j: usize = 0;
        while j < 3
            invariant
                i < 3,
                j <= 3,
                rows@ == display_rows(),
                columns@ == display_columns(),
                row@.len() == j,
                forall|l: int|
                    0 <= l < j ==> is_cell_button(
                        #[trigger] row@[l],
                        Coord(display_rows()[i as int], display_columns()[l]),
                        game@,
                    ),
            decreases 3 - j,
        {
            row.push(cell_button(game, Coord(rows[i], columns[j])));
            j = j + 1;
        }
        r.push(row);
        i = i + 1;
    }
    let mut last: Vec<Button> = Vec::new();
    last.push(remove_button());
    r.push(last);
    r
}

/// The user who plays the role `p`.
pub open spec fn player_id(p: Player, challenger: u64, opponent: u64) -> u64 {
    match p {
        Player::Challenger => challenger,
        Player::Opponent => opponent,
    }
}

/// The line of text that says how the game on `b` stands: whose turn it is,
/// who won (the role whose mark fills the winning line), or that it is a tie.
pub open spec fn status_line(b: Seq<Tile>, challenger: u64, opponent: u64) -> Seq<char> {
    match outcome(b) {
        Some(Winning::Tie) => "The game is a tie"@,
        Some(w) => glyph(line_mark(b, w)) + mention(
            player_id(role_of(line_mark(b, w)), challenger, opponent),
        ) + " is the winner!"@,
        None => glyph(mark_of(next_to_move(b))) + mention(
            player_id(next_to_move(b), challenger, opponent),
        ) + "'s turn"@,
    }
}

/// The message that opens a game against `target`.
pub open spec fn challenge_message(target: u64) -> Seq<char> {
    mention(target) + " has been challenged to TicTacToe!\n"@ + glyph(Tile::X) + mention(target)
        + "'s turn"@
}

impl TicTacToe {
    /// The line of text that says how this game stands: whose turn it is, who
    /// won, or that it is a tie.
    pub fn status(&self, challenger: u64, opponent: u64) -> (r: String)
        ensures
            r@ == status_line(self@, challenger, opponent),
    {
        let board = self.state();
        match self.winning() {
            Some(Winning::Tie) => String::from_str("The game is a tie"),
            Some(w) => {
                let mark = board.get(line_start(w));
                let winner = if mark == Tile::O {
                    challenger
                } else {
                    opponent
                };
                let mut s = String::from_str(mark.glyph());
                push_mention(&mut s, winner);
                s.append(" is the winner!");
                s
            },
            None => {
                let next = self.next_turn();
                let mut s = String::from_str(next.mark().glyph());
                let who = match next {
                    Player::Challenger => challenger,
                    Player::Opponent => opponent,
                };
                push_mention(&mut s, who);
                s.append("'s turn");
                s
            },
        }
    }

    /// The message that opens a game against `target`: a line announcing the
    /// challenge, then the opponent's turn.
    pub fn challenge(target: u64) -> (r: String)
        ensures
            r@ == challenge_message(target),
    {
        let mut s = String::new();
        push_mention(&mut s, target);
        s.append(" has been challenged to TicTacToe!\n");
        s.append(Tile::X.glyph());
        push_mention(&mut s, target);
        s.append("'s turn");
        s
    }
}

/// The first cell of a line.
fn line_start(w: Winning) -> (r: Coord)
    requires
        w != Winning::Tie,
    ensures
        r == crate::winner::line_cells(w)[0],
{
    match w {
        Winning::Vertical(c) => Coord(Row::Top, c),
        Winning::Horizontal(row) => Coord(row, Column::Left),
        _ => Coord(Row::Middle, Column::Center),
    }
}

} // verus!
