//! Character-level helpers over strings.

use vstd::prelude::*;

verus! {

/// The characters of `s`, in order.
pub(crate) fn chars_of(s: &str) -> (r: Vec<char>)
    ensures
        r@ == s@,
{
    let mut r: Vec<char> = Vec::new();
    for c in it: s.chars()
        invariant
            r@ == it.seq().take(it.index() as int),
    {
        r.push(c);
    }
    r
}

/// Relies on `String::push`: the character is appended at the end.
#[verifier::external_body]
pub(crate) fn push_char(s: &mut String, c: char)
    ensures
        final(s)@ == old(s)@.push(c),
{
    s.push(c);
}

/// Whether the characters `v[lo..hi]` are exactly those of `lit`.
pub(crate) fn slice_is(v: &Vec<char>, lo: usize, hi: usize, lit: &str) -> (r: bool)
    requires
        lo <= hi <= v@.len(),
    ensures
        r == (v@.subrange(lo as int, hi as int) == lit@),
{
    let n = lit.unicode_len();
    if hi - lo != n {
        return false;
    }
    let mut i: usize = 0;
    while i < n
        invariant
            lo <= hi <= v@.len(),
            hi - lo == n == lit@.len(),
            i <= n,
            forall|j: int| 0 <= j < i ==> v@[lo + j] == lit@[j],
        decreases n - i,
    {
        if v[lo + i] != lit.get_char(i) {
            assert(v@.subrange(lo as int, hi as int)[i as int] != lit@[i as int]);
            return false;
        }
        i = i + 1;
    }
    assert(v@.subrange(lo as int, hi as int) =~= lit@);
    true
}

/// Whether `i` is the position of the first `sep` in `s`.
pub open spec fn is_first(s: Seq<char>, sep: char, i: int) -> bool {
    0 <= i < s.len() && s[i] == sep && !s.take(i).contains(sep)
}

/// The characters of `s` before its first `sep`, if it holds one.
pub open spec fn before_first(s: Seq<char>, sep: char) -> Option<Seq<char>> {
    if s.contains(sep) {
        Some(s.take(choose|i: int| is_first(s, sep, i)))
    } else {
        None
    }
}

/// The characters of `s` after its first `sep`, if it holds one.
pub open spec fn after_first(s: Seq<char>, sep: char) -> Option<Seq<char>> {
    if s.contains(sep) {
        Some(s.skip((choose|i: int| is_first(s, sep, i)) + 1))
    } else {
        None
    }
}

/// There is only one first position of a character.
pub proof fn lemma_first_unique(s: Seq<char>, sep: char, i: int, j: int)
    requires
        is_first(s, sep, i),
        is_first(s, sep, j),
    ensures
        i == j,
{
    if i < j {
        assert(s.take(j)[i] == sep);
    } else if j < i {
        assert(s.take(i)[j] == sep);
    }
}

/// The split of `s` at position `i`, once `i` is known to be its first `sep`.
pub proof fn lemma_split_at_first(s: Seq<char>, sep: char, i: int)
    requires
        is_first(s, sep, i),
    ensures
        before_first(s, sep) == Some(s.take(i)),
        after_first(s, sep) == Some(s.skip(i + 1)),
{
    assert(s.contains(sep)) by {
        assert(s[i] == sep);
    }
    let j = choose|j: int| is_first(s, sep, j);
    lemma_first_unique(s, sep, i, j);
}

/// The position of the first `sep` in `v[lo..hi]`, counted from the start of
/// `v`, if there is one.
pub(crate) fn find_char(v: &Vec<char>, lo: usize, hi: usize, sep: char) -> (r: Option<usize>)
    requires
        lo <= hi <= v@.len(),
    ensures
        match r {
            Some(i) => lo <= i < hi && is_first(v@.subrange(lo as int, hi as int), sep, i - lo),
            None => !v@.subrange(lo as int, hi as int).contains(sep),
        },
{
    let ghost s = v@.subrange(lo as int, hi as int);
    let mut i: usize = lo;
    while i < hi
        invariant
            lo <= i <= hi <= v@.len(),
            s == v@.subrange(lo as int, hi as int),
            !s.take(i - lo).contains(sep),
        decreases hi - i,
    {
        if v[i] == sep {
            assert(s[i - lo] == sep);
            return Some(i);
        }
        assert(s.take(i - lo + 1) =~= s.take(i - lo).push(s[i - lo]));
        i = i + 1;
    }
    assert(s.take(i - lo) =~= s);
    None
}

/// A string holding the characters `v[lo..hi]`.
pub(crate) fn string_of(v: &Vec<char>, lo: usize, hi: usize) -> (r: String)
    requires
        lo <= hi <= v@.len(),
    ensures
        r@ == v@.subrange(lo as int, hi as int),
{
    let mut r = String::new();
    let mut i: usize = lo;
    while i < hi
        invariant
            lo <= i <= hi <= v@.len(),
            r@ == v@.subrange(lo as int, i as int),
        decreases hi - i,
    {
        push_char(&mut r, v[i]);
        assert(v@.subrange(lo as int, i + 1) =~= v@.subrange(lo as int, i as int).push(
            v@[i as int],
        ));
        i = i + 1;
    }
    r
}

/// The decimal digit for `d`.
pub open spec fn digit(d: nat) -> char {
    seq!['0', '1', '2', '3', '4', '5', '6', '7', '8', '9'][d as int]
}

/// The decimal form of `n`, without leading zeros.
pub open spec fn decimal(n: nat) -> Seq<char>
    decreases n,
{
    if n < 10 {
        seq![digit(n)]
    } else {
        decimal(n / 10).push(digit(n % 10))
    }
}

/// How a chat message mentions the user with the identifier `id`: `<@id>`.
pub open spec fn mention(id: u64) -> Seq<char> {
    seq!['<', '@'] + decimal(id as nat) + seq!['>']
}

/// The decimal form of `n`.
pub(crate) fn decimal_string(n: u64) -> (r: String)
    ensures
        r@ == decimal(n as nat),
{
    let digits = ['0', '1', '2', '3', '4', '5', '6', '7', '8', '9'];
    assert(digits@ =~= seq!['0', '1', '2', '3', '4', '5', '6', '7', '8', '9']);
    let mut tail: Vec<char> = Vec::new();
    let mut m: u64 = n;
    while m >= 10
        invariant
            digits@ == seq!['0', '1', '2', '3', '4', '5', '6', '7', '8', '9'],
            decimal(n as nat) == decimal(m as nat) + tail@,
        decreases m,
    {
        let d = digits[(m % 10) as usize];
        tail.insert(0, d);
        assert(decimal(m as nat) == decimal((m / 10) as nat).push(d));
        assert(decimal(n as nat) =~= decimal((m / 10) as nat) + tail@);
        m = m / 10;
    }
    let mut r = String::new();
    push_char(&mut r, digits[m as usize]);
    assert(r@ =~= decimal(m as nat));
    let mut i: usize = 0;
    while i < tail.len()
        invariant
            i <= tail@.len(),
            r@ == decimal(m as nat) + tail@.take(i as int),
        decreases tail@.len() - i,
    {
        push_char(&mut r, tail[i]);
        assert(tail@.take(i + 1) =~= tail@.take(i as int).push(tail@[i as int]));
        assert(r@ =~= decimal(m as nat) + tail@.take(i + 1));
        i = i + 1;
    }
    assert(tail@.take(i as int) =~= tail@);
    r
}

/// Appends the mention of the user `id` to `s`.
pub(crate) fn push_mention(s: &mut String, id: u64)
    ensures
        final(s)@ == old(s)@ + mention(id),
{
    push_char(s, '<');
    push_char(s, '@');
    let d = decimal_string(id);
    s.append(d.as_str());
    push_char(s, '>');
    assert(final(s)@ =~= old(s)@ + mention(id));
}

} // verus!
