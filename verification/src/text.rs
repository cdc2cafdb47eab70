//! Work on names: splitting at a separator, exchanging one character for
//! another, and writing a number in decimal.

use vstd::prelude::*;
use vstd::string::*;
use crate::model::views;

verus! {

/// The pieces of `s` between the occurrences of `sep`. There is always at
/// least one piece; a piece may be empty.
pub open spec fn split(s: Seq<char>, sep: char) -> Seq<Seq<char>>
    decreases s.len(),
{
    if s.len() == 0 {
        seq![Seq::empty()]
    } else {
        let before = split(s.drop_last(), sep);
        if s.last() == sep {
            before.push(Seq::empty())
        } else {
            before.drop_last().push(before.last().push(s.last()))
        }
    }
}

/// `pieces` one behind the other, with `sep` between each two.
pub open spec fn joined(pieces: Seq<Seq<char>>, sep: char) -> Seq<char>
    decreases pieces.len(),
{
    if pieces.len() == 0 {
        Seq::empty()
    } else if pieces.len() == 1 {
        pieces[0]
    } else {
        joined(pieces.drop_last(), sep).push(sep) + pieces.last()
    }
}

/// `s` with every `from` exchanged for `to`.
pub open spec fn replaced(s: Seq<char>, from: char, to: char) -> Seq<char> {
    Seq::new(
        s.len(),
        |i: int|
            if s[i] == from {
                to
            } else {
                s[i]
            },
    )
}

/// The character of the digit `d`.
pub open spec fn digit(d: int) -> char {
    if d == 0 {
        '0'
    } else if d == 1 {
        '1'
    } else if d == 2 {
        '2'
    } else if d == 3 {
        '3'
    } else if d == 4 {
        '4'
    } else if d == 5 {
        '5'
    } else if d == 6 {
        '6'
    } else if d == 7 {
        '7'
    } else if d == 8 {
        '8'
    } else {
        '9'
    }
}

/// `n` in decimal, without leading zeros.
pub open spec fn decimal(n: nat) -> Seq<char>
    decreases n,
{
    if n < 10 {
        seq![digit(n as int)]
    } else {
        decimal(n / 10).push(digit((n % 10) as int))
    }
}

/// Splitting gives at least one piece.
pub proof fn lemma_split_nonempty(s: Seq<char>, sep: char)
    ensures
        split(s, sep).len() >= 1,
    decreases s.len(),
{
    if s.len() > 0 {
        lemma_split_nonempty(s.drop_last(), sep);
    }
}

/// What splitting is: the pieces hold no separator, and joined again with
/// the separator between them they give the text back.
pub proof fn lemma_split_joined(s: Seq<char>, sep: char)
    ensures
        joined(split(s, sep), sep) == s,
        forall|i: int, j: int|
            0 <= i < split(s, sep).len() && 0 <= j < split(s, sep)[i].len() ==> split(s, sep)[i][j]
                != sep,
    decreases s.len(),
{
    if s.len() > 0 {
        let before = split(s.drop_last(), sep);
        lemma_split_joined(s.drop_last(), sep);
        lemma_split_nonempty(s.drop_last(), sep);
        if s.last() == sep {
            // one more piece, empty so far
            assert(before.push(Seq::empty()).drop_last() == before);
        } else {
            // the last piece grows by one character
            let grown = before.last().push(s.last());
            assert(before.drop_last().push(grown).drop_last() == before.drop_last());
            if before.len() > 1 {
                let head = joined(before.drop_last(), sep).push(sep);
                assert(head + grown == (head + before.last()).push(s.last()));
            }
        }
    }
}

/// A number in decimal has at least one digit.
pub proof fn lemma_decimal_nonempty(n: nat)
    ensures
        decimal(n).len() >= 1,
    decreases n,
{
    if n >= 10 {
        lemma_decimal_nonempty(n / 10);
    }
}

/// Different numbers are written differently.
pub proof fn lemma_decimal_injective(a: nat, b: nat)
    requires
        decimal(a) == decimal(b),
    ensures
        a == b,
    decreases a,
{
    lemma_decimal_nonempty(a / 10);
    lemma_decimal_nonempty(b / 10);
    if a < 10 && b < 10 {
        // one digit each: the same digit
        assert(decimal(a)[0] == digit(a as int));
    } else if a >= 10 && b >= 10 {
        // the same last digit, and the same digits before it
        let x = decimal(a / 10);
        let y = decimal(b / 10);
        let last_a = digit((a % 10) as int);
        let last_b = digit((b % 10) as int);
        assert(decimal(a) == x.push(last_a));
        assert(x.push(last_a).drop_last() == x);
        assert(y.push(last_b).drop_last() == y);
        assert(x.push(last_a).last() == last_a);
        lemma_decimal_injective(a / 10, b / 10);
        assert(a % 10 == b % 10);
    }
    // else one digit against several, which cannot be
}

/// The pieces of `s` between its dots.
pub fn split_at_dots(s: &str) -> (pieces: Vec<String>)
    ensures
        views(pieces@) == split(s@, '.'),
{
    let n: usize = s.unicode_len();
    let mut done: Vec<String> = Vec::new();
    let mut current: String = String::new();
    let mut i: usize = 0;
    while i < n
        invariant
            i <= n,
            n == s@.len(),
            views(done@).push(current@) == split(s@.take(i as int), '.'),
        decreases n - i,
    {
        let c: char = s.get_char(i);
        proof {
            assert(s@.take(i as int + 1).drop_last() == s@.take(i as int));
        }
        if c == '.' {
            done.push(current);
            current = String::new();
        } else {
            let one: &str = s.substring_char(i, i + 1);
            proof {
                assert(current@ + one@ == current@.push(c));
            }
            current.append(one);
        }
        i = i + 1;
    }
    proof {
        assert(s@.take(n as int) == s@);
    }
    done.push(current);
    done
}

/// `s` with a slash for every dot.
pub fn dots_to_slashes(s: &str) -> (r: String)
    ensures
        r@ == replaced(s@, '.', '/'),
{
    let n: usize = s.unicode_len();
    let mut out: String = String::new();
    let mut i: usize = 0;
    while i < n
        invariant
            i <= n,
            n == s@.len(),
            out@ == replaced(s@.take(i as int), '.', '/'),
        decreases n - i,
    {
        let c: char = s.get_char(i);
        proof {
            reveal_strlit("/");
            assert(replaced(s@.take(i as int + 1), '.', '/') == replaced(s@.take(i as int), '.', '/').push(
                if c == '.' {
                    '/'
                } else {
                    c
                },
            ));
        }
        if c == '.' {
            out.append("/");
        } else {
            out.append(s.substring_char(i, i + 1));
        }
        i = i + 1;
    }
    out
}

/// The digit `d` as a string of one character.
fn digit_str(d: usize) -> (r: &'static str)
    requires
        d < 10,
    ensures
        r@ == seq![digit(d as int)],
{
    proof {
        reveal_strlit("0");
        reveal_strlit("1");
        reveal_strlit("2");
        reveal_strlit("3");
        reveal_strlit("4");
        reveal_strlit("5");
        reveal_strlit("6");
        reveal_strlit("7");
        reveal_strlit("8");
        reveal_strlit("9");
    }
    if d == 0 {
        "0"
    } else if d == 1 {
        "1"
    } else if d == 2 {
        "2"
    } else if d == 3 {
        "3"
    } else if d == 4 {
        "4"
    } else if d == 5 {
        "5"
    } else if d == 6 {
        "6"
    } else if d == 7 {
        "7"
    } else if d == 8 {
        "8"
    } else {
        "9"
    }
}

/// `n` in decimal.
pub fn decimal_string(n: usize) -> (r: String)
    ensures
        r@ == decimal(n as nat),
    decreases n,
{
    if n < 10 {
        digit_str(n).to_owned()
    } else {
        let mut r: String = decimal_string(n / 10);
        r.append(digit_str(n % 10));
        r
    }
}

} // verus!
