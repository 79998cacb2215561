//! Rewriting a text in meows.

use vstd::prelude::*;

use crate::text::{chars_of, push_char};

verus! {

/// Whether `c` has Unicode's Alphabetic property.
pub uninterp spec fn alphabetic(c: char) -> bool;

/// Relies on `char::is_alphabetic`: whether `c` has Unicode's Alphabetic
/// property, which depends on `c` alone.
#[verifier::external_body]
fn char_is_alphabetic(c: char) -> (r: bool)
    ensures
        r == alphabetic(c),
{
    c.is_alphabetic()
}

/// Whether `c` is an ASCII capital letter.
pub open spec fn ascii_upper(c: char) -> bool {
    'A' <= c <= 'Z'
}

/// The letter of "meow" that the `k`-th letter of a text becomes, counting
/// from zero and starting over after four, capital when `upper` holds.
pub open spec fn meow_letter(k: nat, upper: bool) -> char {
    if upper {
        seq!['M', 'E', 'O', 'W'][(k % 4) as int]
    } else {
        seq!['m', 'e', 'o', 'w'][(k % 4) as int]
    }
}

/// The number of letters, where `letters` tells which characters are
/// letters.
pub open spec fn letter_count(letters: Seq<bool>) -> nat
    decreases letters.len(),
{
    if letters.len() == 0 {
        0
    } else {
        letter_count(letters.drop_last()) + if letters.last() {
            1nat
        } else {
            0nat
        }
    }
}

/// `s` with each letter replaced by the next letter of "meow", over and
/// over, capital where the character was an ASCII capital; other characters
/// are kept. `letters[i]` tells whether `s[i]` is a letter.
pub open spec fn meow_chars(s: Seq<char>, letters: Seq<bool>) -> Seq<char>
    decreases s.len(),
{
    if s.len() == 0 {
        seq![]
    } else {
        let c = s.last();
        let before = letters.take(s.len() - 1);
        meow_chars(s.drop_last(), before).push(
            if letters[s.len() - 1] {
                meow_letter(letter_count(before), ascii_upper(c))
            } else {
                c
            },
        )
    }
}

/// `s` with every `.` followed by a space and a smirking cat.
pub open spec fn cat_after_dots(s: Seq<char>) -> Seq<char>
    decreases s.len(),
{
    if s.len() == 0 {
        seq![]
    } else if s.last() == '.' {
        cat_after_dots(s.drop_last()) + seq!['.', ' ', '\u{1F63C}']
    } else {
        cat_after_dots(s.drop_last()).push(s.last())
    }
}

/// Which characters of `s` are alphabetic.
pub open spec fn alphabetic_flags(s: Seq<char>) -> Seq<bool> {
    s.map_values(|c: char| alphabetic(c))
}

/// The meowed form of `s`, where the letters are its alphabetic characters.
pub open spec fn meowified(s: Seq<char>) -> Seq<char> {
    cat_after_dots(meow_chars(s, alphabetic_flags(s)))
}

/// Rewrites `text` in meows, where `letters[i]` tells whether the `i`-th
/// character of `text` is a letter: every letter becomes the next letter of
/// "meow" (capital for an ASCII capital), and every `.` is followed by " 😼".
pub fn meow_letters(text: &str, letters: &Vec<bool>) -> (r: String)
    requires
        letters@.len() == text@.len(),
    ensures
        r@ == cat_after_dots(meow_chars(text@, letters@)),
{
    let lower = ['m', 'e', 'o', 'w'];
    let upper = ['M', 'E', 'O', 'W'];
    assert(lower@ =~= seq!['m', 'e', 'o', 'w']);
    assert(upper@ =~= seq!['M', 'E', 'O', 'W']);
    let v = chars_of(text);
    let mut r = String::new();
    let mut k: usize = 0;
    let mut i: usize = 0;
    while i < v.len()
        invariant
            i <= v@.len(),
            v@ == text@,
            letters@.len() == v@.len(),
            lower@ == seq!['m', 'e', 'o', 'w'],
            upper@ == seq!['M', 'E', 'O', 'W'],
            k == letter_count(letters@.take(i as int)),
            k <= i,
            r@ == cat_after_dots(meow_chars(v@.take(i as int), letters@.take(i as int))),
        decreases v@.len() - i,
    {
        let c = v[i];
        let ghost prefix = v@.take(i as int);
        let ghost flags = letters@.take(i as int);
        assert(v@.take(i + 1).drop_last() =~= prefix);
        assert(letters@.take(i + 1).drop_last() =~= flags);
        assert(letters@.take(i + 1).take(i as int) =~= flags);
        assert(v@.take(i + 1).last() == c);
        let out = if letters[i] {
            let m = if 'A' <= c && c <= 'Z' {
                upper[k % 4]
            } else {
                lower[k % 4]
            };
            k = k + 1;
            m
        } else {
            c
        };
        assert(meow_chars(v@.take(i + 1), letters@.take(i + 1)) == meow_chars(prefix, flags).push(
            out,
        ));
        assert(meow_chars(v@.take(i + 1), letters@.take(i + 1)).drop_last() =~= meow_chars(
            prefix,
            flags,
        ));
        if out == '.' {
            push_char(&mut r, '.');
            push_char(&mut r, ' ');
            push_char(&mut r, '\u{1F63C}');
        } else {
            push_char(&mut r, out);
        }
        assert(r@ =~= cat_after_dots(meow_chars(v@.take(i + 1), letters@.take(i + 1))));
        i = i + 1;
    }
    assert(v@.take(i as int) =~= text@);
    assert(letters@.take(i as int) =~= letters@);
    r
}

/// Rewrites `text` in meows: every alphabetic character becomes the next
/// letter of "meow" (capital for an ASCII capital), and every `.` is
/// followed by " 😼".
pub fn meowify(text: &str) -> (r: String)
    ensures
        r@ == meowified(text@),
{
    let v = chars_of(text);
    let mut letters: Vec<bool> = Vec::new();
    let mut i: usize = 0;
    while i < v.len()
        invariant
            i <= v@.len(),
            v@ == text@,
            letters@ == alphabetic_flags(v@).take(i as int),
        decreases v@.len() - i,
    {
        letters.push(char_is_alphabetic(v[i]));
        assert(letters@ =~= alphabetic_flags(v@).take(i + 1));
        i = i + 1;
    }
    assert(letters@ =~= alphabetic_flags(text@));
    meow_letters(text, &letters)
}

} // verus!
