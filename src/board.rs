//! Marks, roles and the 3x3 board, and whose turn it is.

use vstd::prelude::*;

use crate::coord::{Column, Coord, Row};
use crate::text::chars_of;

verus! {

/// What occupies a cell.
#[derive(Debug, Clone, Copy, PartialEq, Eq, Structural)]
pub enum Tile {
    Empty,
    X,
    O,
}

/// The two participants of a game: the user who started it and the user it
/// targets.
#[derive(Debug, Clone, Copy, PartialEq, Eq, Structural)]
pub enum Player {
    Opponent,
    Challenger,
}

/// The mark that a role places: the opponent plays X, the challenger O.
pub open spec fn mark_of(p: Player) -> Tile {
    match p {
        Player::Opponent => Tile::X,
        Player::Challenger => Tile::O,
    }
}

/// The role that places a non-empty mark.
pub open spec fn role_of(t: Tile) -> Player {
    if t == Tile::O {
        Player::Challenger
    } else {
        Player::Opponent
    }
}

/// The glyph that shows a mark.
pub open spec fn glyph(t: Tile) -> Seq<char> {
    match t {
        Tile::X => seq!['\u{274C}'],
        Tile::O => seq!['\u{2B55}'],
        Tile::Empty => seq!['\u{2B1B}'],
    }
}

/// The mark that a glyph shows; anything but the glyphs of X and O shows an
/// empty cell.
pub open spec fn tile_of_glyph(s: Seq<char>) -> Tile {
    if s == glyph(Tile::X) {
        Tile::X
    } else if s == glyph(Tile::O) {
        Tile::O
    } else {
        Tile::Empty
    }
}

impl Player {
    /// The mark that this role places.
    pub fn mark(&self) -> (r: Tile)
        ensures
            r == mark_of(*self),
    {
        match self {
            Player::Opponent => Tile::X,
            Player::Challenger => Tile::O,
        }
    }
}

impl Tile {
    /// The glyph that shows this mark.
    pub fn glyph(&self) -> (r: &'static str)
        ensures
            r@ == glyph(*self),
    {
        match self {
            Tile::X => {
                proof {
                    reveal_strlit("\u{274C}");
                }
                assert("\u{274C}"@ =~= glyph(Tile::X));
                "\u{274C}"
            },
            Tile::O => {
                proof {
                    reveal_strlit("\u{2B55}");
                }
                assert("\u{2B55}"@ =~= glyph(Tile::O));
                "\u{2B55}"
            },
            Tile::Empty => {
                proof {
                    reveal_strlit("\u{2B1B}");
                }
                assert("\u{2B1B}"@ =~= glyph(Tile::Empty));
                "\u{2B1B}"
            },
        }
    }

    /// The mark that the glyph `s` shows, matched exactly.
    pub fn from_glyph(s: &str) -> (r: Tile)
        ensures
            r == tile_of_glyph(s@),
    {
        let v = chars_of(s);
        if v.len() == 1 && v[0] == '\u{274C}' {
            assert(v@ =~= glyph(Tile::X));
            Tile::X
        } else if v.len() == 1 && v[0] == '\u{2B55}' {
            assert(v@ =~= glyph(Tile::O));
            Tile::O
        } else {
            assert(v@ != glyph(Tile::X)) by {
                if v@ == glyph(Tile::X) {
                    assert(v@[0] == '\u{274C}');
                }
            }
            assert(v@ != glyph(Tile::O)) by {
                if v@ == glyph(Tile::O) {
                    assert(v@[0] == '\u{2B55}');
                }
            }
            Tile::Empty
        }
    }
}

/// The position of a row, top to bottom.
pub open spec fn row_index(r: Row) -> int {
    match r {
        Row::Top => 0,
        Row::Middle => 1,
        Row::Bottom => 2,
    }
}

/// The position of a column, left to right.
pub open spec fn column_index(c: Column) -> int {
    match c {
        Column::Left => 0,
        Column::Center => 1,
        Column::Right => 2,
    }
}

/// Where a cell's mark is kept in a board's nine tiles.
pub open spec fn cell_index(c: Coord) -> int {
    row_index(c.0) * 3 + column_index(c.1)
}

/// The mark on cell `c` of the board `b`.
pub open spec fn tile_at(b: Seq<Tile>, c: Coord) -> Tile {
    b[cell_index(c)]
}

/// The board with no marks.
pub open spec fn empty_board() -> Seq<Tile> {
    Seq::new(9, |i: int| Tile::Empty)
}

/// The number of cells that hold a mark.
pub open spec fn marked_count(b: Seq<Tile>) -> nat
    decreases b.len(),
{
    if b.len() == 0 {
        0
    } else {
        marked_count(b.drop_last()) + if b.last() != Tile::Empty {
            1nat
        } else {
            0nat
        }
    }
}

/// Whose move it is: the opponent's when an even number of cells are marked,
/// the challenger's when an odd number are.
pub open spec fn next_to_move(b: Seq<Tile>) -> Player {
    if marked_count(b) % 2 == 0 {
        Player::Opponent
    } else {
        Player::Challenger
    }
}

/// The board `b` with the cell `c` set to `t`.
pub open spec fn with_tile(b: Seq<Tile>, c: Coord, t: Tile) -> Seq<Tile> {
    b.update(cell_index(c), t)
}

/// Every index of the nine tiles is the index of exactly one cell.
pub proof fn lemma_cell_index(c: Coord)
    ensures
        0 <= cell_index(c) < 9,
        forall|d: Coord| cell_index(d) == cell_index(c) ==> d == c,
{
}

/// Changing one tile changes the number of marked cells by what left and
/// what came.
pub proof fn lemma_marked_count_update(b: Seq<Tile>, i: int, t: Tile)
    requires
        0 <= i < b.len(),
    ensures
        marked_count(b.update(i, t)) + (if b[i] != Tile::Empty {
            1int
        } else {
            0int
        }) == marked_count(b) + (if t != Tile::Empty {
            1int
        } else {
            0int
        }),
    decreases b.len(),
{
    let u = b.update(i, t);
    if i == b.len() - 1 {
        assert(u.drop_last() =~= b.drop_last());
    } else {
        assert(u.drop_last() =~= b.drop_last().update(i, t));
        lemma_marked_count_update(b.drop_last(), i, t);
    }
}

/// A mark placed on an empty cell adds exactly one marked cell and passes
/// the turn to the other role.
pub proof fn lemma_move_on_empty_cell(b: Seq<Tile>, c: Coord)
    requires
        b.len() == 9,
        tile_at(b, c) == Tile::Empty,
    ensures
        marked_count(with_tile(b, c, mark_of(next_to_move(b)))) == marked_count(b) + 1,
        next_to_move(with_tile(b, c, mark_of(next_to_move(b)))) != next_to_move(b),
{
    lemma_cell_index(c);
    lemma_marked_count_update(b, cell_index(c), mark_of(next_to_move(b)));
}

/// The marks of a 3x3 grid, one for each cell. Every value is a board:
/// cells that nothing marked are `Empty`.
#[derive(Debug, Clone, Copy)]
pub struct Board {
    pub cells: [Tile; 9],
}

impl View for Board {
    type V = Seq<Tile>;

    open spec fn view(&self) -> Seq<Tile> {
        self.cells@
    }
}

impl Board {
    /// The board with no marks.
    pub fn empty() -> (r: Board)
        ensures
            r@ == empty_board(),
    {
        let r = Board { cells: [Tile::Empty; 9] };
        assert(r@ =~= empty_board());
        r
    }

    /// The mark on cell `c`.
    pub fn get(&self, c: Coord) -> (r: Tile)
        ensures
            r == tile_at(self@, c),
    {
        self.cells[Board::index(c)]
    }

    /// Puts the mark `t` on cell `c`, whatever was there.
    pub fn set(&mut self, c: Coord, t: Tile)
        ensures
            final(self)@ == with_tile(old(self)@, c, t),
    {
        let i = Board::index(c);
        self.cells[i] = t;
    }

    /// The number of cells that hold a mark.
    pub fn marked(&self) -> (r: usize)
        ensures
            r == marked_count(self@),
    {
        let mut n: usize = 0;
        let mut i: usize = 0;
        while i < 9
            invariant
                i <= 9,
                self@.len() == 9,
                n == marked_count(self@.take(i as int)),
                n <= i,
            decreases 9 - i,
        {
            assert(self@.take(i + 1).drop_last() =~= self@.take(i as int));
            if self.cells[i] != Tile::Empty {
                n = n + 1;
            }
            i = i + 1;
        }
        assert(self@.take(9) =~= self@);
        n
    }

    fn index(c: Coord) -> (r: usize)
        ensures
            r == cell_index(c),
            r < 9,
    {
        let row: usize = match c.0 {
            Row::Top => 0,
            Row::Middle => 1,
            Row::Bottom => 2,
        };
        let col: usize = match c.1 {
            Column::Left => 0,
            Column::Center => 1,
            Column::Right => 2,
        };
        row * 3 + col
    }
}

/// Whose move it is on `state`: the opponent's when an even number of cells
/// are marked, the challenger's when an odd number are.
pub fn next_player(state: &Board) -> (r: Player)
    ensures
        r == next_to_move(state@),
        r == Player::Opponent <==> marked_count(state@) % 2 == 0,
{
    if state.marked() % 2 == 0 {
        Player::Opponent
    } else {
        Player::Challenger
    }
}

} // verus!
