//! The bot's commands, their names, and how an interaction finds the command
//! that handles it.

use vstd::prelude::*;

use crate::text::{
    before_first, chars_of, decimal, decimal_string, find_char, lemma_split_at_first, slice_is,
    string_of,
};

verus! {

/// The command that greets the user who runs it.
pub struct Hello;

/// The command that rewrites a message in meows.
pub struct Meowify;

/// The command that deletes recent messages of a channel.
pub struct Purge;

/// The command that asks the channel to rate a candidate.
pub struct SmashOrPass;

/// A command for trying out modal dialogs.
pub struct Test;

/// The command that plans a week from a message.
pub struct WeekPlanner;

/// The commands of the bot.
#[derive(Debug, Clone, Copy, PartialEq, Eq, Structural)]
pub enum Command {
    Test,
    Hello,
    Meowify,
    Purge,
    SmashOrPass,
    TicTacToe,
    WeekPlanner,
}

/// The name under which a command is registered.
pub open spec fn command_name(c: Command) -> Seq<char> {
    match c {
        Command::Test => "test"@,
        Command::Hello => "hello"@,
        Command::Meowify => "\u{1F63C} Meowify"@,
        Command::Purge => "purge"@,
        Command::SmashOrPass => "smashorpass"@,
        Command::TicTacToe => "TicTacToe"@,
        Command::WeekPlanner => "Week Planner"@,
    }
}

/// The part of a component's or modal's identifier that names its command:
/// what comes before the first `_`, or the whole identifier.
pub open spec fn command_part(custom_id: Seq<char>) -> Seq<char> {
    match before_first(custom_id, '_') {
        Some(p) => p,
        None => custom_id,
    }
}

impl Command {
    /// Every command, in the order they are registered.
    pub fn all() -> (r: Vec<Command>)
        ensures
            r@ == seq![
                Command::Test,
                Command::Hello,
                Command::Meowify,
                Command::Purge,
                Command::SmashOrPass,
                Command::TicTacToe,
                Command::WeekPlanner,
            ],
    {
        let r = vec![
            Command::Test,
            Command::Hello,
            Command::Meowify,
            Command::Purge,
            Command::SmashOrPass,
            Command::TicTacToe,
            Command::WeekPlanner,
        ];
        assert(r@ =~= seq![
            Command::Test,
            Command::Hello,
            Command::Meowify,
            Command::Purge,
            Command::SmashOrPass,
            Command::TicTacToe,
            Command::WeekPlanner,
        ]);
        r
    }

    /// The name under which this command is registered.
    pub fn name(&self) -> (r: &'static str)
        ensures
            r@ == command_name(*self),
    {
        match self {
            Command::Test => "test",
            Command::Hello => "hello",
            Command::Meowify => "\u{1F63C} Meowify",
            Command::Purge => "purge",
            Command::SmashOrPass => "smashorpass",
            Command::TicTacToe => "TicTacToe",
            Command::WeekPlanner => "Week Planner",
        }
    }

    /// The command registered under `name`, matched exactly.
    pub fn from_name(name: &str) -> (r: Option<Command>)
        ensures
            r matches Some(c) ==> name@ == command_name(c),
            r is None ==> forall|c: Command| name@ != command_name(c),
    {
        let v = chars_of(name);
        let n = v.len();
        assert(v@.subrange(0, n as int) =~= name@);
        let all = Command::all();
        let mut i: usize = 0;
        while i < all.len()
            invariant
                i <= all@.len(),
                n == v@.len(),
                v@.subrange(0, n as int) == name@,
                all@ == seq![
                    Command::Test,
                    Command::Hello,
                    Command::Meowify,
                    Command::Purge,
                    Command::SmashOrPass,
                    Command::TicTacToe,
                    Command::WeekPlanner,
                ],
                forall|k: int| 0 <= k < i ==> name@ != command_name(#[trigger] all@[k]),
            decreases all@.len() - i,
        {
            if slice_is(&v, 0, n, all[i].name()) {
                return Some(all[i]);
            }
            i = i + 1;
        }
        assert forall|c: Command| name@ != command_name(c) by {
            match c {
                Command::Test => assert(all@[0] == c),
                Command::Hello => assert(all@[1] == c),
                Command::Meowify => assert(all@[2] == c),
                Command::Purge => assert(all@[3] == c),
                Command::SmashOrPass => assert(all@[4] == c),
                Command::TicTacToe => assert(all@[5] == c),
                Command::WeekPlanner => assert(all@[6] == c),
            }
        }
        None
    }
}

/// The part of a component's or modal's identifier that names its command:
/// what comes before the first `_`, or the whole identifier when it has none.
pub fn command_part_of(custom_id: &str) -> (r: String)
    ensures
        r@ == command_part(custom_id@),
{
    let v = chars_of(custom_id);
    assert(v@.subrange(0, v@.len() as int) =~= custom_id@);
    match find_char(&v, 0, v.len(), '_') {
        Some(i) => {
            proof {
                lemma_split_at_first(custom_id@, '_', i as int);
            }
            assert(v@.subrange(0, i as int) =~= custom_id@.take(i as int));
            string_of(&v, 0, i)
        },
        None => string_of(&v, 0, v.len()),
    }
}

/// The number of messages that a purge asks for, from the amount given:
/// its remainder by 255 (with the sign of the amount), wrapped into a byte.
pub open spec fn purge_count(n: int) -> int {
    let rem = if n >= 0 {
        n % 255
    } else {
        -((-n) % 255)
    };
    if rem >= 0 {
        rem
    } else {
        rem + 256
    }
}

impl Purge {
    /// The number of messages to fetch for the amount `n`: `n % 255` as Rust
    /// computes it, wrapped into a byte.
    pub fn amount(n: i64) -> (r: u8)
        ensures
            r == purge_count(n as int),
    {
        if n >= 0 {
            (n % 255) as u8
        } else {
            let m: u64 = (-(n + 1)) as u64 + 1;
            let rem = m % 255;
            if rem == 0 {
                0
            } else {
                (256 - rem) as u8
            }
        }
    }

    /// The report of a purge: `One message removed` when a single message was
    /// fetched and deleted, else `<amount> messages removed`.
    pub fn removed_text(fetched: usize, amount: u8) -> (r: String)
        ensures
            r@ == if fetched == 1 {
                "One message removed"@
            } else {
                decimal(amount as nat) + " messages removed"@
            },
    {
        if fetched == 1 {
            String::from_str("One message removed")
        } else {
            let mut s = decimal_string(amount as u64);
            s.append(" messages removed");
            s
        }
    }
}

} // verus!
