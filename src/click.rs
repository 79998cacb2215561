//! Handling a click on a game's button. No game is stored anywhere: each
//! click rebuilds the board from the buttons that the message shows, decides
//! whether the acting user may move, and derives the next message.

use vstd::prelude::*;

use crate::board::{empty_board, next_player, next_to_move, with_tile, Board, Player, Tile};
use crate::coord::{action_coord, Coord};
use crate::error::GameError;
use crate::game::{after_click, remove_action_id, remove_id, status_line, TicTacToe};
use crate::text::{
    before_first, chars_of, find_char, lemma_split_at_first, push_char, slice_is, string_of,
};

verus! {

/// A button of the grid as the message shows it: its action identifier and
/// the mark its glyph shows.
#[derive(Debug)]
pub struct RenderedCell {
    pub custom_id: String,
    pub tile: Tile,
}

/// The board that a rendered grid shows: each button whose identifier names
/// a cell puts its mark there, later buttons over earlier ones; buttons that
/// name no cell are passed over, and cells that no button names are empty.
pub open spec fn board_of(cells: Seq<RenderedCell>) -> Seq<Tile>
    decreases cells.len(),
{
    if cells.len() == 0 {
        empty_board()
    } else {
        let b = board_of(cells.drop_last());
        match action_coord(cells.last().custom_id@) {
            Some(c) => with_tile(b, c, cells.last().tile),
            None => b,
        }
    }
}

/// The board that the buttons `cells` show.
pub fn reconstruct_board(cells: &Vec<RenderedCell>) -> (r: Board)
    ensures
        r@ == board_of(cells@),
{
    let mut b = Board::empty();
    let mut i: usize = 0;
    while i < cells.len()
        invariant
            i <= cells@.len(),
            b@ == board_of(cells@.take(i as int)),
        decreases cells@.len() - i,
    {
        assert(cells@.take(i + 1).drop_last() =~= cells@.take(i as int));
        if let Ok(c) = Coord::from_action_id(cells[i].custom_id.as_str()) {
            b.set(c, cells[i].tile);
        }
        i = i + 1;
    }
    assert(cells@.take(i as int) =~= cells@);
    b
}

/// Whether `user` takes part in the game: the challenger, or a user that the
/// message mentions.
pub open spec fn participant(user: u64, challenger: u64, mentions: Seq<u64>) -> bool {
    user == challenger || mentions.contains(user)
}

/// The mentioned users other than the challenger.
pub open spec fn candidates(challenger: u64, mentions: Seq<u64>) -> Seq<u64> {
    mentions.filter(other_than(challenger))
}

/// Holds of every user but `u`.
pub open spec fn other_than(u: u64) -> spec_fn(u64) -> bool {
    |m: u64| m != u
}

/// The opponent of the game. A single mention is the opponent. Otherwise the
/// opponent is the only mentioned user other than the challenger; with no
/// such user the opponent is missing, and with several the acting user must
/// be the challenger, who then plays against the first of them.
pub open spec fn opponent_of(user: u64, challenger: u64, mentions: Seq<u64>) -> Result<
    u64,
    GameError,
> {
    if mentions.len() == 1 {
        Ok(mentions[0])
    } else {
        let c = candidates(challenger, mentions);
        if c.len() == 0 {
            Err(GameError::MissingContext)
        } else if c.len() == 1 || user == challenger {
            Ok(c[0])
        } else {
            Err(GameError::AmbiguousOpponent)
        }
    }
}

/// Whether `user` plays the role `mover`.
pub open spec fn plays(user: u64, mover: Player, challenger: u64, opponent: u64) -> bool {
    match mover {
        Player::Challenger => user == challenger,
        Player::Opponent => user == opponent,
    }
}

/// Whether `user` takes part in the game: the challenger, or a user that the
/// message mentions.
pub fn is_participant(user: u64, challenger: u64, mentions: &Vec<u64>) -> (r: bool)
    ensures
        r == participant(user, challenger, mentions@),
{
    if user == challenger {
        return true;
    }
    let mut i: usize = 0;
    while i < mentions.len()
        invariant
            i <= mentions@.len(),
            forall|k: int| 0 <= k < i ==> mentions@[k] != user,
        decreases mentions@.len() - i,
    {
        if mentions[i] == user {
            assert(mentions@[i as int] == user);
            return true;
        }
        i = i + 1;
    }
    false
}

/// The opponent of the game, as `opponent_of` describes it.
pub fn resolve_opponent(user: u64, challenger: u64, mentions: &Vec<u64>) -> (r: Result<
    u64,
    GameError,
>)
    ensures
        r == opponent_of(user, challenger, mentions@),
{
    if mentions.len() == 1 {
        return Ok(mentions[0]);
    }
    let ghost pred = other_than(challenger);
    let mut found: Vec<u64> = Vec::new();
    let mut i: usize = 0;
    while i < mentions.len()
        invariant
            i <= mentions@.len(),
            pred == other_than(challenger),
            found@ == mentions@.take(i as int).filter(pred),
        decreases mentions@.len() - i,
    {
        proof {
            mentions@.take(i as int).lemma_filter_push(mentions@[i as int], pred);
        }
        assert(mentions@.take(i + 1) =~= mentions@.take(i as int).push(mentions@[i as int]));
        if mentions[i] != challenger {
            found.push(mentions[i]);
        }
        i = i + 1;
    }
    assert(mentions@.take(i as int) =~= mentions@);
    assert(found@ == candidates(challenger, mentions@));
    if found.len() == 0 {
        Err(GameError::MissingContext)
    } else if found.len() == 1 || user == challenger {
        Ok(found[0])
    } else {
        Err(GameError::AmbiguousOpponent)
    }
}

/// What a click on a game's button leads to, when it is handled.
#[derive(Debug)]
pub enum ClickOutcome {
    /// The acting user takes no part in the game; nothing changes.
    NotPartOfGame,
    /// The remove button was clicked by a participant; the game ends.
    Removed,
    /// It is not the acting user's turn; nothing changes.
    NotYourTurn,
    /// The move was made: the message's new text and the game it now shows.
    Moved { content: String, game: TicTacToe },
}

/// Whether `r` is the reply to a click by `user` on the button `custom_id`
/// of a game started by `ch`, whose message mentions `mentions`, reads
/// `content` and shows the buttons `grid`.
pub open spec fn click_reply(
    r: Result<ClickOutcome, GameError>,
    user: u64,
    ch: u64,
    mentions: Seq<u64>,
    custom_id: Seq<char>,
    content: Seq<char>,
    grid: Seq<RenderedCell>,
) -> bool {
    if !participant(user, ch, mentions) {
        r matches Ok(ClickOutcome::NotPartOfGame)
    } else if custom_id == remove_id() {
        r matches Ok(ClickOutcome::Removed)
    } else {
        match opponent_of(user, ch, mentions) {
            Err(e) => r == Err::<ClickOutcome, GameError>(e),
            Ok(opp) => match action_coord(custom_id) {
                None => r == Err::<ClickOutcome, GameError>(GameError::ParseError),
                Some(c) => {
                    let before = board_of(grid);
                    if !plays(user, next_to_move(before), ch, opp) {
                        r matches Ok(ClickOutcome::NotYourTurn)
                    } else {
                        match before_first(content, '\n') {
                            None => r == Err::<ClickOutcome, GameError>(GameError::MissingContext),
                            Some(first) => r matches Ok(ClickOutcome::Moved { content: text, game })
                                && game@ == after_click(before, Some(c)) && text@ == first
                                + seq!['\n'] + status_line(game@, ch, opp),
                        }
                    }
                },
            },
        }
    }
}

/// Handles a click by `user` on the button `custom_id` of a game message.
/// `challenger` is the user who started the game, `mentions` the users that
/// the message mentions, `content` its text and `grid` its cell buttons.
///
/// In order: a missing challenger is an error; a user who is neither the
/// challenger nor mentioned is turned away; the remove button ends the game;
/// the opponent is resolved; the clicked cell is decoded; the board is
/// rebuilt from `grid`, and the move is refused unless the acting user plays
/// the role whose turn it is on that board; the message keeps its first line
/// and gets a new status line, and the board gets the mover's mark on the
/// clicked cell (over any mark already there).
pub fn handle_click(
    user: u64,
    challenger: Option<u64>,
    mentions: &Vec<u64>,
    custom_id: &str,
    content: &str,
    grid: &Vec<RenderedCell>,
) -> (r: Result<ClickOutcome, GameError>)
    ensures
        challenger is None ==> r == Err::<ClickOutcome, GameError>(GameError::MissingContext),
        challenger is Some ==> click_reply(
            r,
            user,
            challenger->0,
            mentions@,
            custom_id@,
            content@,
            grid@,
        ),
        challenger matches Some(ch) && !participant(user, ch, mentions@) ==> r matches Ok(
            ClickOutcome::NotPartOfGame,
        ),
{
    let ch = match challenger {
        Some(ch) => ch,
        None => return Err(GameError::MissingContext),
    };
    if !is_participant(user, ch, mentions) {
        return Ok(ClickOutcome::NotPartOfGame);
    }
    let id = chars_of(custom_id);
    assert(id@.subrange(0, id@.len() as int) =~= custom_id@);
    if slice_is(&id, 0, id.len(), remove_action_id()) {
        return Ok(ClickOutcome::Removed);
    }
    let opponent = match resolve_opponent(user, ch, mentions) {
        Ok(opp) => opp,
        Err(e) => return Err(e),
    };
    let clicked = match Coord::from_action_id(custom_id) {
        Ok(c) => c,
        Err(e) => return Err(e),
    };
    let before = reconstruct_board(grid);
    let mover = next_player(&before);
    let allowed = match mover {
        Player::Challenger => user == ch,
        Player::Opponent => user == opponent,
    };
    if !allowed {
        return Ok(ClickOutcome::NotYourTurn);
    }
    let text = chars_of(content);
    assert(text@.subrange(0, text@.len() as int) =~= content@);
    let cut = match find_char(&text, 0, text.len(), '\n') {
        Some(i) => i,
        None => return Err(GameError::MissingContext),
    };
    proof {
        lemma_split_at_first(content@, '\n', cut as int);
    }
    let game = TicTacToe::new(before, Some(clicked));
    let mut s = string_of(&text, 0, cut);
    assert(text@.subrange(0, cut as int) =~= content@.take(cut as int));
    push_char(&mut s, '\n');
    let status = game.status(ch, opponent);
    s.append(status.as_str());
    assert(s@ =~= content@.take(cut as int) + seq!['\n'] + status_line(game@, ch, opponent));
    Ok(ClickOutcome::Moved { content: s, game })
}

} // verus!
