//! A stateless tic-tac-toe engine for a chat bot, with the small pieces of
//! logic that the bot's other commands need.
//!
//! No game is stored: every click rebuilds the board from the buttons that
//! the game's message shows, decides whether the acting user may move, and
//! derives the buttons and text of the next message.

pub mod board;
pub mod click;
pub mod commands;
pub mod coord;
pub mod error;
pub mod game;
pub mod meow;
pub mod text;
pub mod winner;

pub use board::{next_player, Board, Player, Tile};
pub use click::{handle_click, reconstruct_board, resolve_opponent, ClickOutcome, RenderedCell};
pub use commands::{
    command_part_of, Command, Hello, Meowify, Purge, SmashOrPass, Test, WeekPlanner,
};
pub use coord::{Column, Coord, Diagonal, Row};
pub use error::GameError;
pub use game::{create_components, remove_action_id, Button, ButtonFace, TicTacToe};
pub use meow::{meow_letters, meowify};
pub use winner::{calculate_winner, get_style, ButtonStyle, Winning};
