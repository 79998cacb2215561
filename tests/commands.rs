use tictactoe_bot::{command_part_of, meow_letters, meowify, Command, Purge};

#[test]
fn meowify_replaces_letters_in_order() {
    assert_eq!(meowify("Hello, World."), "Meowm, Eowme. \u{1F63C}");
    assert_eq!(meowify(""), "");
    assert_eq!(meowify("abcdefgh"), "meowmeow");
    assert_eq!(meowify("1 + 2 = 3"), "1 + 2 = 3");
}

#[test]
fn meowify_counts_non_ascii_letters() {
    assert_eq!(meowify("\u{e9}t\u{e9}"), "meo");
    assert_eq!(meowify("\u{c9}T"), "mE");
}

#[test]
fn meowify_puts_a_cat_after_every_dot() {
    assert_eq!(meowify("..."), ". \u{1F63C}. \u{1F63C}. \u{1F63C}");
    assert_eq!(meowify("a.b"), "m. \u{1F63C}e");
}

#[test]
fn command_names_resolve() {
    for c in Command::all() {
        assert_eq!(Command::from_name(c.name()), Some(c));
    }
    assert_eq!(Command::from_name("hello"), Some(Command::Hello));
    assert_eq!(Command::from_name("TicTacToe"), Some(Command::TicTacToe));
    assert_eq!(Command::from_name("\u{1F63C} Meowify"), Some(Command::Meowify));
    assert_eq!(Command::from_name("Hello"), None);
    assert_eq!(Command::from_name(""), None);
}

#[test]
fn component_ids_name_their_command_before_the_first_underscore() {
    assert_eq!(command_part_of("TicTacToe_left_top"), "TicTacToe");
    assert_eq!(command_part_of("TicTacToe__remove"), "TicTacToe");
    assert_eq!(command_part_of("test"), "test");
    assert_eq!(command_part_of("_x"), "");
}

#[test]
fn purge_amount_is_a_wrapped_remainder() {
    assert_eq!(Purge::amount(5), 5);
    assert_eq!(Purge::amount(255), 0);
    assert_eq!(Purge::amount(300), 45);
    assert_eq!(Purge::amount(-1), 255);
    assert_eq!(Purge::amount(-255), 0);
    assert_eq!(Purge::amount(i64::MIN), ((i64::MIN % 255) as u8));
    assert_eq!(Purge::amount(i64::MAX), ((i64::MAX % 255) as u8));
}

#[test]
fn purge_report() {
    assert_eq!(Purge::removed_text(1, 1), "One message removed");
    assert_eq!(Purge::removed_text(12, 12), "12 messages removed");
    assert_eq!(Purge::removed_text(0, 0), "0 messages removed");
    assert_eq!(Purge::removed_text(200, 200), "200 messages removed");
}

#[test]
fn meow_letters_follow_the_given_flags() {
    assert_eq!(meow_letters("ab.C", &vec![true, false, false, true]), "mb. \u{1F63C}E");
    assert_eq!(meow_letters("xyz", &vec![false, false, false]), "xyz");
    assert_eq!(meow_letters("", &vec![]), "");
    assert_eq!(meow_letters("1.", &vec![true, true]), "me");
}
