//! Finding a completed line, or a full board, on a board.

use vstd::prelude::*;

use crate::board::{cell_index, column_index, row_index, tile_at, Board, Tile};
use crate::coord::{Column, Coord, Diagonal, Row};

verus! {

/// How a board stands once it has a result: a completed column, row or
/// diagonal, or a full board without one.
#[derive(Debug, Clone, Copy, PartialEq, Eq, Structural)]
pub enum Winning {
    Vertical(Column),
    Horizontal(Row),
    Diagonal(Diagonal),
    Tie,
}

/// The three cells of a line. The diagonals are listed center first.
pub open spec fn line_cells(w: Winning) -> Seq<Coord> {
    match w {
        Winning::Vertical(c) => seq![
            Coord(Row::Top, c),
            Coord(Row::Middle, c),
            Coord(Row::Bottom, c),
        ],
        Winning::Horizontal(r) => seq![
            Coord(r, Column::Left),
            Coord(r, Column::Center),
            Coord(r, Column::Right),
        ],
        Winning::Diagonal(Diagonal::TopLeftToBottomRight) => seq![
            Coord(Row::Middle, Column::Center),
            Coord(Row::Top, Column::Left),
            Coord(Row::Bottom, Column::Right),
        ],
        Winning::Diagonal(Diagonal::BottomLeftToTopRight) => seq![
            Coord(Row::Middle, Column::Center),
            Coord(Row::Bottom, Column::Left),
            Coord(Row::Top, Column::Right),
        ],
        Winning::Tie => seq![],
    }
}

/// Whether the cell `c` lies on the line `w`; no cell lies on a tie.
pub open spec fn on_line(c: Coord, w: Winning) -> bool {
    line_cells(w).contains(c)
}

/// Whether the line `w` holds three equal marks on `b`.
pub open spec fn completes(b: Seq<Tile>, w: Winning) -> bool {
    &&& w != Winning::Tie
    &&& tile_at(b, line_cells(w)[0]) != Tile::Empty
    &&& tile_at(b, line_cells(w)[0]) == tile_at(b, line_cells(w)[1])
    &&& tile_at(b, line_cells(w)[0]) == tile_at(b, line_cells(w)[2])
}

/// The mark that fills a completed line.
pub open spec fn line_mark(b: Seq<Tile>, w: Winning) -> Tile {
    tile_at(b, line_cells(w)[0])
}

/// The order in which lines are looked at: columns left to right, rows
/// bottom to top, then the two diagonals.
pub open spec fn scan_order() -> Seq<Winning> {
    seq![
        Winning::Vertical(Column::Left),
        Winning::Vertical(Column::Center),
        Winning::Vertical(Column::Right),
        Winning::Horizontal(Row::Bottom),
        Winning::Horizontal(Row::Middle),
        Winning::Horizontal(Row::Top),
        Winning::Diagonal(Diagonal::TopLeftToBottomRight),
        Winning::Diagonal(Diagonal::BottomLeftToTopRight),
    ]
}

/// The first of `lines` that `b` completes.
pub open spec fn first_complete(b: Seq<Tile>, lines: Seq<Winning>) -> Option<Winning>
    decreases lines.len(),
{
    if lines.len() == 0 {
        None
    } else if completes(b, lines[0]) {
        Some(lines[0])
    } else {
        first_complete(b, lines.drop_first())
    }
}

/// Whether no cell of `b` is empty.
pub open spec fn is_full(b: Seq<Tile>) -> bool {
    forall|i: int| 0 <= i < 9 ==> b[i] != Tile::Empty
}

/// The result of a board: the first completed line in scan order; else a tie
/// when the board is full; else none, and the game goes on.
pub open spec fn outcome(b: Seq<Tile>) -> Option<Winning> {
    match first_complete(b, scan_order()) {
        Some(w) => Some(w),
        None => if is_full(b) {
            Some(Winning::Tie)
        } else {
            None
        },
    }
}

/// The board with the line `w` filled by `m` and every other cell empty.
pub open spec fn board_with_line(w: Winning, m: Tile) -> Seq<Tile> {
    Seq::new(9, |i: int| if exists|k: int| 0 <= k < 3 && cell_index(line_cells(w)[k]) == i {
        m
    } else {
        Tile::Empty
    })
}

/// The lines of `lines` before the first complete one are not complete, and
/// the one reported is.
proof fn lemma_first_complete(b: Seq<Tile>, lines: Seq<Winning>)
    ensures
        match first_complete(b, lines) {
            Some(w) => lines.contains(w) && completes(b, w),
            None => forall|i: int| 0 <= i < lines.len() ==> !completes(b, #[trigger] lines[i]),
        },
    decreases lines.len(),
{
    if lines.len() > 0 {
        lemma_first_complete(b, lines.drop_first());
        if !completes(b, lines[0]) {
            match first_complete(b, lines.drop_first()) {
                Some(w) => {
                    let rest = lines.drop_first();
                    let k = choose|k: int| 0 <= k < rest.len() && rest[k] == w;
                    assert(lines[k + 1] == w);
                },
                None => {
                    assert forall|i: int| 0 <= i < lines.len() implies !completes(
                        b,
                        #[trigger] lines[i],
                    ) by {
                        if i > 0 {
                            assert(lines[i] == lines.drop_first()[i - 1]);
                        }
                    }
                },
            }
        } else {
            assert(lines[0] == lines[0]);
        }
    }
}

/// A board with exactly one line filled by one mark, and every other cell
/// empty, is won on that line, and no other line is reported.
pub proof fn lemma_single_line_detected(w: Winning, m: Tile)
    requires
        w != Winning::Tie,
        m != Tile::Empty,
    ensures
        outcome(board_with_line(w, m)) == Some(w),
{
    let b = board_with_line(w, m);
    assert(completes(b, w)) by {
        assert(cell_index(line_cells(w)[0]) == cell_index(line_cells(w)[0]));
        assert(cell_index(line_cells(w)[1]) == cell_index(line_cells(w)[1]));
        assert(cell_index(line_cells(w)[2]) == cell_index(line_cells(w)[2]));
    }
    reveal_with_fuel(first_complete, 9);
}

/// A full board on which no line is complete is a tie, and a board with an
/// empty cell is never a tie.
pub proof fn lemma_tie(b: Seq<Tile>)
    requires
        b.len() == 9,
    ensures
        is_full(b) && (forall|w: Winning| !completes(b, w)) ==> outcome(b) == Some(Winning::Tie),
        (exists|i: int| 0 <= i < 9 && b[i] == Tile::Empty) ==> outcome(b) != Some(Winning::Tie),
{
    lemma_first_complete(b, scan_order());
}

impl Board {
    /// Whether the three cells hold the same mark, and it is not `Empty`.
    fn completes_line(&self, a: Coord, b: Coord, c: Coord) -> (r: bool)
        ensures
            r == (tile_at(self@, a) != Tile::Empty && tile_at(self@, a) == tile_at(self@, b)
                && tile_at(self@, a) == tile_at(self@, c)),
    {
        let ta = self.get(a);
        ta != Tile::Empty && ta == self.get(b) && ta == self.get(c)
    }

    fn completes(&self, w: Winning) -> (r: bool)
        ensures
            r == completes(self@, w),
    {
        match w {
            Winning::Vertical(c) => self.completes_line(
                Coord(Row::Top, c),
                Coord(Row::Middle, c),
                Coord(Row::Bottom, c),
            ),
            Winning::Horizontal(r) => self.completes_line(
                Coord(r, Column::Left),
                Coord(r, Column::Center),
                Coord(r, Column::Right),
            ),
            Winning::Diagonal(Diagonal::TopLeftToBottomRight) => self.completes_line(
                Coord(Row::Middle, Column::Center),
                Coord(Row::Top, Column::Left),
                Coord(Row::Bottom, Column::Right),
            ),
            Winning::Diagonal(Diagonal::BottomLeftToTopRight) => self.completes_line(
                Coord(Row::Middle, Column::Center),
                Coord(Row::Bottom, Column::Left),
                Coord(Row::Top, Column::Right),
            ),
            Winning::Tie => false,
        }
    }

    /// Whether no cell is empty.
    fn is_full(&self) -> (r: bool)
        ensures
            r == is_full(self@),
    {
        let mut i: usize = 0;
        while i < 9
            invariant
                i <= 9,
                self@.len() == 9,
                forall|j: int| 0 <= j < i ==> self@[j] != Tile::Empty,
            decreases 9 - i,
        {
            if self.cells[i] == Tile::Empty {
                return false;
            }
            i = i + 1;
        }
        true
    }
}

/// The result of `state`: the first completed line, looking at columns left
/// to right, rows bottom to top, then the diagonals; else a tie when no cell
/// is empty; else `None`.
pub fn calculate_winner(state: &Board) -> (r: Option<Winning>)
    ensures
        r == outcome(state@),
{
    let order = [
        Winning::Vertical(Column::Left),
        Winning::Vertical(Column::Center),
        Winning::Vertical(Column::Right),
        Winning::Horizontal(Row::Bottom),
        Winning::Horizontal(Row::Middle),
        Winning::Horizontal(Row::Top),
        Winning::Diagonal(Diagonal::TopLeftToBottomRight),
        Winning::Diagonal(Diagonal::BottomLeftToTopRight),
    ];
    assert(order@ =~= scan_order());
    assert(scan_order().skip(0) =~= scan_order());
    let mut i: usize = 0;
    while i < 8
        invariant
            i <= 8,
            order@ == scan_order(),
            first_complete(state@, scan_order()) == first_complete(
                state@,
                scan_order().skip(i as int),
            ),
        decreases 8 - i,
    {
        let w = order[i];
        assert(scan_order().skip(i as int)[0] == w);
        if state.completes(w) {
            return Some(w);
        }
        assert(scan_order().skip(i as int).drop_first() =~= scan_order().skip(i + 1));
        i = i + 1;
    }
    assert(scan_order().skip(8).len() == 0);
    if state.is_full() {
        Some(Winning::Tie)
    } else {
        None
    }
}

/// How a cell's button is drawn.
#[derive(Debug, Clone, Copy, PartialEq, Eq, Structural)]
pub enum ButtonStyle {
    Secondary,
    Success,
    Danger,
}

/// The style of the cell `c` once the game has the result `w`: highlighted
/// when `c` lies on the winning line.
pub open spec fn style_for(c: Coord, w: Winning) -> ButtonStyle {
    if on_line(c, w) {
        ButtonStyle::Success
    } else {
        ButtonStyle::Secondary
    }
}

/// The style of the cell `id` once the game has the result `value`:
/// `Success` on the winning line, `Secondary` elsewhere and on a tie.
pub fn get_style(id: &Coord, value: &Winning) -> (r: ButtonStyle)
    ensures
        r == style_for(*id, *value),
{
    let on = match value {
        Winning::Vertical(col) => id.1 == *col,
        Winning::Horizontal(row) => id.0 == *row,
        Winning::Diagonal(diagonal) => match (id.0, id.1) {
            (Row::Middle, Column::Center) => true,
            (Row::Top, Column::Left) | (Row::Bottom, Column::Right) => *diagonal
                == Diagonal::TopLeftToBottomRight,
            (Row::Bottom, Column::Left) | (Row::Top, Column::Right) => *diagonal
                == Diagonal::BottomLeftToTopRight,
            _ => false,
        },
        Winning::Tie => false,
    };
    assert(on == on_line(*id, *value)) by {
        let cs = line_cells(*value);
        match *value {
            Winning::Vertical(col) => {
                assert(on ==> cs[row_index(id.0)] == *id);
            },
            Winning::Horizontal(row) => {
                assert(on ==> cs[column_index(id.1)] == *id);
            },
            Winning::Diagonal(Diagonal::TopLeftToBottomRight) => {
                assert(*id == Coord(Row::Middle, Column::Center) ==> cs[0] == *id);
                assert(*id == Coord(Row::Top, Column::Left) ==> cs[1] == *id);
                assert(*id == Coord(Row::Bottom, Column::Right) ==> cs[2] == *id);
            },
            Winning::Diagonal(Diagonal::BottomLeftToTopRight) => {
                assert(*id == Coord(Row::Middle, Column::Center) ==> cs[0] == *id);
                assert(*id == Coord(Row::Bottom, Column::Left) ==> cs[1] == *id);
                assert(*id == Coord(Row::Top, Column::Right) ==> cs[2] == *id);
            },
            Winning::Tie => {},
        }
    }
    if on {
        ButtonStyle::Success
    } else {
        ButtonStyle::Secondary
    }
}

} // verus!
