//! Cells of the 3x3 grid and their textual tokens.

use vstd::prelude::*;

use crate::error::GameError;
use crate::text::{
    after_first, chars_of, find_char, is_first, lemma_first_unique, lemma_split_at_first, slice_is,
};

verus! {

/// A row of the grid.
#[derive(Debug, Clone, Copy, PartialEq, Eq, Structural, Hash)]
pub enum Row {
    Top,
    Middle,
    Bottom,
}

/// A column of the grid.
#[derive(Debug, Clone, Copy, PartialEq, Eq, Structural, Hash)]
pub enum Column {
    Left,
    Center,
    Right,
}

/// One cell of the grid: a row and a column.
#[derive(Debug, Clone, Copy, PartialEq, Eq, Structural, Hash)]
pub struct Coord(pub Row, pub Column);

/// One of the two diagonals of the grid.
#[derive(Debug, Clone, Copy, PartialEq, Eq, Structural, Hash)]
pub enum Diagonal {
    TopLeftToBottomRight,
    BottomLeftToTopRight,
}

/// The name of a row in tokens.
pub open spec fn row_name(r: Row) -> Seq<char> {
    match r {
        Row::Top => seq!['t', 'o', 'p'],
        Row::Middle => seq!['m', 'i', 'd', 'd', 'l', 'e'],
        Row::Bottom => seq!['b', 'o', 't', 't', 'o', 'm'],
    }
}

/// The name of a column in tokens.
pub open spec fn column_name(c: Column) -> Seq<char> {
    match c {
        Column::Left => seq!['l', 'e', 'f', 't'],
        Column::Center => seq!['c', 'e', 'n', 't', 'e', 'r'],
        Column::Right => seq!['r', 'i', 'g', 'h', 't'],
    }
}

/// The token of a cell: `<column>_<row>`.
pub open spec fn token(c: Coord) -> Seq<char> {
    column_name(c.1) + seq!['_'] + row_name(c.0)
}

/// The cell whose token is `s`, if there is one.
pub open spec fn decoded(s: Seq<char>) -> Option<Coord> {
    if exists|c: Coord| token(c) == s {
        Some(choose|c: Coord| token(c) == s)
    } else {
        None
    }
}

/// The row named `s`, if there is one.
pub open spec fn row_named(s: Seq<char>) -> Option<Row> {
    if s == row_name(Row::Top) {
        Some(Row::Top)
    } else if s == row_name(Row::Middle) {
        Some(Row::Middle)
    } else if s == row_name(Row::Bottom) {
        Some(Row::Bottom)
    } else {
        None
    }
}

/// The column named `s`, if there is one.
pub open spec fn column_named(s: Seq<char>) -> Option<Column> {
    if s == column_name(Column::Left) {
        Some(Column::Left)
    } else if s == column_name(Column::Center) {
        Some(Column::Center)
    } else if s == column_name(Column::Right) {
        Some(Column::Right)
    } else {
        None
    }
}

/// No row or column name holds the separator `_`.
proof fn lemma_names_have_no_separator(r: Row, c: Column)
    ensures
        !row_name(r).contains('_'),
        !column_name(c).contains('_'),
{
    assert(row_name(r).len() <= 6);
    assert(column_name(c).len() <= 6);
}

/// Two cells with the same token are the same cell.
pub proof fn lemma_token_injective(a: Coord, b: Coord)
    requires
        token(a) == token(b),
    ensures
        a == b,
{
    lemma_names_have_no_separator(a.0, a.1);
    lemma_names_have_no_separator(b.0, b.1);
    let ta = token(a);
    let la = column_name(a.1).len() as int;
    let lb = column_name(b.1).len() as int;
    if la < lb {
        assert(ta[la] == '_');
        assert(column_name(b.1)[la] == ta[la]);
        assert(column_name(b.1).contains('_'));
    } else if lb < la {
        assert(ta[lb] == '_');
        assert(column_name(a.1)[lb] == ta[lb]);
        assert(column_name(a.1).contains('_'));
    }
    assert(column_name(a.1) =~= ta.take(la));
    assert(column_name(b.1) =~= ta.take(la));
    assert(row_name(a.0) =~= ta.skip(la + 1));
    assert(row_name(b.0) =~= ta.skip(la + 1));
    assert(a.0 == b.0);
    assert(a.1 == b.1);
}

/// A token's first `_` comes right after the column's name.
proof fn lemma_token_split(c: Coord)
    ensures
        is_first(token(c), '_', column_name(c.1).len() as int),
        token(c).take(column_name(c.1).len() as int) == column_name(c.1),
        token(c).skip(column_name(c.1).len() as int + 1) == row_name(c.0),
{
    let t = token(c);
    let k = column_name(c.1).len() as int;
    lemma_names_have_no_separator(c.0, c.1);
    assert(t.take(k) =~= column_name(c.1));
    assert(t.skip(k + 1) =~= row_name(c.0));
}

/// Decoding the token of a cell gives back that cell.
pub proof fn lemma_round_trip(c: Coord)
    ensures
        decoded(token(c)) == Some(c),
{
    assert(token(c) == token(c));
    let d = choose|d: Coord| token(d) == token(c);
    lemma_token_injective(c, d);
}

/// The name of the game in action identifiers.
pub open spec fn game_tag() -> Seq<char> {
    seq!['T', 'i', 'c', 'T', 'a', 'c', 'T', 'o', 'e']
}

/// The action identifier of a cell's button: the game's tag, `_`, and the
/// cell's token.
pub open spec fn action_id(c: Coord) -> Seq<char> {
    game_tag() + seq!['_'] + token(c)
}

/// The cell that an action identifier names: what follows its first `_`,
/// decoded.
pub open spec fn action_coord(s: Seq<char>) -> Option<Coord> {
    match after_first(s, '_') {
        Some(rest) => decoded(rest),
        None => None,
    }
}

/// The action identifier of a cell names that cell.
pub proof fn lemma_action_id_round_trip(c: Coord)
    ensures
        action_coord(action_id(c)) == Some(c),
{
    let s = action_id(c);
    let n = game_tag().len() as int;
    assert(s[n] == '_');
    assert(!s.take(n).contains('_')) by {
        assert(s.take(n) =~= game_tag());
    }
    lemma_split_at_first(s, '_', n);
    assert(s.skip(n + 1) =~= token(c));
    lemma_round_trip(c);
}

impl Row {
    /// The name of this row in tokens.
    pub fn name(&self) -> (r: &'static str)
        ensures
            r@ == row_name(*self),
    {
        match self {
            Row::Top => {
                proof {
                    reveal_strlit("top");
                }
                "top"
            },
            Row::Middle => {
                proof {
                    reveal_strlit("middle");
                }
                "middle"
            },
            Row::Bottom => {
                proof {
                    reveal_strlit("bottom");
                }
                "bottom"
            },
        }
    }

    /// The row named by `v[lo..hi]`, if any.
    fn from_chars(v: &Vec<char>, lo: usize, hi: usize) -> (r: Option<Row>)
        requires
            lo <= hi <= v@.len(),
        ensures
            r == row_named(v@.subrange(lo as int, hi as int)),
    {
        proof {
            reveal_strlit("top");
            reveal_strlit("middle");
            reveal_strlit("bottom");
        }
        if slice_is(v, lo, hi, "top") {
            assert("top"@ =~= row_name(Row::Top));
            Some(Row::Top)
        } else if slice_is(v, lo, hi, "middle") {
            assert("top"@ =~= row_name(Row::Top));
            assert("middle"@ =~= row_name(Row::Middle));
            Some(Row::Middle)
        } else if slice_is(v, lo, hi, "bottom") {
            assert("top"@ =~= row_name(Row::Top));
            assert("middle"@ =~= row_name(Row::Middle));
            assert("bottom"@ =~= row_name(Row::Bottom));
            Some(Row::Bottom)
        } else {
            assert("top"@ =~= row_name(Row::Top));
            assert("middle"@ =~= row_name(Row::Middle));
            assert("bottom"@ =~= row_name(Row::Bottom));
            None
        }
    }

    /// The row whose name is `s`; names are matched exactly.
    pub fn parse(s: &str) -> (r: Result<Row, GameError>)
        ensures
            r == match row_named(s@) {
                Some(row) => Ok(row),
                None => Err(GameError::ParseError),
            },
    {
        let v = chars_of(s);
        assert(v@.subrange(0, v@.len() as int) =~= s@);
        match Row::from_chars(&v, 0, v.len()) {
            Some(row) => Ok(row),
            None => Err(GameError::ParseError),
        }
    }
}

impl Column {
    /// The name of this column in tokens.
    pub fn name(&self) -> (r: &'static str)
        ensures
            r@ == column_name(*self),
    {
        match self {
            Column::Left => {
                proof {
                    reveal_strlit("left");
                }
                "left"
            },
            Column::Center => {
                proof {
                    reveal_strlit("center");
                }
                "center"
            },
            Column::Right => {
                proof {
                    reveal_strlit("right");
                }
                "right"
            },
        }
    }

    /// The column named by `v[lo..hi]`, if any.
    fn from_chars(v: &Vec<char>, lo: usize, hi: usize) -> (r: Option<Column>)
        requires
            lo <= hi <= v@.len(),
        ensures
            r == column_named(v@.subrange(lo as int, hi as int)),
    {
        proof {
            reveal_strlit("left");
            reveal_strlit("center");
            reveal_strlit("right");
        }
        assert("left"@ =~= column_name(Column::Left));
        assert("center"@ =~= column_name(Column::Center));
        assert("right"@ =~= column_name(Column::Right));
        if slice_is(v, lo, hi, "left") {
            Some(Column::Left)
        } else if slice_is(v, lo, hi, "center") {
            Some(Column::Center)
        } else if slice_is(v, lo, hi, "right") {
            Some(Column::Right)
        } else {
            None
        }
    }

    /// The column whose name is `s`; names are matched exactly.
    pub fn parse(s: &str) -> (r: Result<Column, GameError>)
        ensures
            r == match column_named(s@) {
                Some(col) => Ok(col),
                None => Err(GameError::ParseError),
            },
    {
        let v = chars_of(s);
        assert(v@.subrange(0, v@.len() as int) =~= s@);
        match Column::from_chars(&v, 0, v.len()) {
            Some(col) => Ok(col),
            None => Err(GameError::ParseError),
        }
    }
}

impl Coord {
    /// The token of this cell, `<column>_<row>`.
    pub fn encode(&self) -> (r: String)
        ensures
            r@ == token(*self),
    {
        let mut r = String::from_str(self.1.name());
        r.append("_");
        r.append(self.0.name());
        proof {
            reveal_strlit("_");
            assert("_"@ =~= seq!['_']);
        }
        r
    }

    /// The identifier of this cell's button: `TicTacToe_<column>_<row>`.
    pub fn action_id(&self) -> (r: String)
        ensures
            r@ == action_id(*self),
    {
        let mut r = String::from_str("TicTacToe_");
        let t = self.encode();
        r.append(t.as_str());
        proof {
            reveal_strlit("TicTacToe_");
            assert("TicTacToe_"@ =~= game_tag() + seq!['_']);
        }
        r
    }

    /// The cell whose token is `v[lo..hi]`, if any.
    fn from_chars(v: &Vec<char>, lo: usize, hi: usize) -> (r: Option<Coord>)
        requires
            lo <= hi <= v@.len(),
        ensures
            r == decoded(v@.subrange(lo as int, hi as int)),
    {
        let ghost s = v@.subrange(lo as int, hi as int);
        match find_char(v, lo, hi, '_') {
            None => {
                assert forall|c: Coord| token(c) != s by {
                    if token(c) == s {
                        lemma_token_split(c);
                    }
                }
                None
            },
            Some(i) => {
                let col = Column::from_chars(v, lo, i);
                let row = Row::from_chars(v, i + 1, hi);
                assert(v@.subrange(lo as int, i as int) =~= s.take(i - lo));
                assert(v@.subrange(i + 1, hi as int) =~= s.skip(i - lo + 1));
                match (col, row) {
                    (Some(col), Some(row)) => {
                        let c = Coord(row, col);
                        proof {
                            lemma_token_split(c);
                            lemma_first_unique(s, '_', column_name(col).len() as int, i - lo);
                            assert(token(c) =~= s);
                            lemma_round_trip(c);
                        }
                        Some(c)
                    },
                    _ => {
                        assert forall|c: Coord| token(c) != s by {
                            if token(c) == s {
                                lemma_token_split(c);
                                lemma_first_unique(s, '_', column_name(c.1).len() as int, i - lo);
                            }
                        }
                        None
                    },
                }
            },
        }
    }

    /// The cell whose token is `s`. Fails with `ParseError` when `s` has no
    /// `_` or either side of its first `_` is not a known name.
    pub fn decode(s: &str) -> (r: Result<Coord, GameError>)
        ensures
            r == match decoded(s@) {
                Some(c) => Ok(c),
                None => Err(GameError::ParseError),
            },
    {
        let v = chars_of(s);
        assert(v@.subrange(0, v@.len() as int) =~= s@);
        match Coord::from_chars(&v, 0, v.len()) {
            Some(c) => Ok(c),
            None => Err(GameError::ParseError),
        }
    }

    /// The cell that a button's action identifier names: the part after its
    /// first `_`, decoded.
    pub fn from_action_id(s: &str) -> (r: Result<Coord, GameError>)
        ensures
            r == match action_coord(s@) {
                Some(c) => Ok(c),
                None => Err(GameError::ParseError),
            },
    {
        let v = chars_of(s);
        assert(v@.subrange(0, v@.len() as int) =~= s@);
        match find_char(&v, 0, v.len(), '_') {
            None => Err(GameError::ParseError),
            Some(i) => {
                proof {
                    lemma_split_at_first(s@, '_', i as int);
                }
                assert(v@.subrange(i + 1, v@.len() as int) =~= s@.skip(i + 1));
                match Coord::from_chars(&v, i + 1, v.len()) {
                    Some(c) => Ok(c),
                    None => Err(GameError::ParseError),
                }
            },
        }
    }
}

} // verus!
