//! Text helpers: splitting a selector on dots and writing numbers in decimal.

use vstd::prelude::*;
use vstd::string::*;

verus! {

/// The index of the first `.` in `s`, or `s.len()` when `s` holds none.
pub open spec fn first_dot(s: Seq<char>) -> int
    decreases s.len(),
{
    if s.len() == 0 || s[0] == '.' {
        0
    } else {
        1 + first_dot(s.skip(1))
    }
}

/// The pieces of `s` between its dots, in order. There is always at least
/// one piece; a piece is empty where two dots touch or a dot stands at an end.
pub open spec fn split_dots(s: Seq<char>) -> Seq<Seq<char>>
    decreases s.len(),
{
    let i = first_dot(s);
    if 0 <= i < s.len() {
        seq![s.take(i)] + split_dots(s.skip(i + 1))
    } else {
        seq![s]
    }
}

/// The views of a list of string slices.
pub open spec fn views(parts: Seq<&str>) -> Seq<Seq<char>> {
    parts.map_values(|p: &str| p@)
}

/// `first_dot` finds the dot at `k` when nothing before `k` is a dot, and
/// runs to the end when there is no dot at all.
pub proof fn lemma_first_dot(s: Seq<char>, k: int)
    requires
        0 <= k <= s.len(),
        forall|j: int| 0 <= j < k ==> s[j] != '.',
        k < s.len() ==> s[k] == '.',
    ensures
        first_dot(s) == k,
    decreases k,
{
    if k > 0 {
        lemma_first_dot(s.skip(1), k - 1);
    }
}

/// Splits a dotted selector into its segments.
pub fn split_selector(selector: &str) -> (parts: Vec<&str>)
    ensures
        views(parts@) == split_dots(selector@),
        parts@.len() >= 1,
{
    let n = selector.unicode_len();
    let mut parts: Vec<&str> = Vec::new();
    let mut start: usize = 0;
    let mut i: usize = 0;
    proof {
        assert(selector@.skip(0) == selector@);
        assert(views(parts@) + split_dots(selector@) == split_dots(selector@));
    }
    while i < n
        invariant
            start <= i <= n,
            n == selector@.len(),
            forall|j: int| start <= j < i ==> selector@[j] != '.',
            split_dots(selector@) == views(parts@) + split_dots(selector@.skip(start as int)),
        decreases n - i,
    {
        if selector.get_char(i) == '.' {
            let piece = selector.substring_char(start, i);
            proof {
                let rest = selector@.skip(start as int);
                lemma_first_dot(rest, i - start);
                assert(rest.take(i - start) == selector@.subrange(start as int, i as int));
                assert(rest.skip(i - start + 1) == selector@.skip(i + 1));
                assert(views(parts@.push(piece)) == views(parts@) + seq![piece@]);
            }
            parts.push(piece);
            start = i + 1;
        }
        i += 1;
    }
    let piece = selector.substring_char(start, n);
    proof {
        let rest = selector@.skip(start as int);
        lemma_first_dot(rest, n - start);
        assert(rest == selector@.subrange(start as int, n as int));
        assert(views(parts@.push(piece)) == views(parts@) + seq![piece@]);
    }
    parts.push(piece);
    parts
}

/// The character that writes the digit `d`.
pub open spec fn digit_char(d: nat) -> char {
    if d == 0 {
        '0'
    } else if d == 1 {
        '1'
    } else if d == 2 {
        '2'
    } else if d == 3 {
        '3'
    } else if d == 4 {
        '4'
    } else if d == 5 {
        '5'
    } else if d == 6 {
        '6'
    } else if d == 7 {
        '7'
    } else if d == 8 {
        '8'
    } else {
        '9'
    }
}

/// `n` written in base ten, without leading zeros.
pub open spec fn decimal(n: nat) -> Seq<char>
    decreases n,
{
    if n < 10 {
        seq![digit_char(n)]
    } else {
        decimal(n / 10).push(digit_char(n % 10))
    }
}

fn digit_str(d: u64) -> (r: &'static str)
    requires
        d < 10,
    ensures
        r@ == seq![digit_char(d as nat)],
{
    proof {
        reveal_strlit("0");
        reveal_strlit("1");
        reveal_strlit("2");
        reveal_strlit("3");
        reveal_strlit("4");
        reveal_strlit("5");
        reveal_strlit("6");
        reveal_strlit("7");
        reveal_strlit("8");
        reveal_strlit("9");
    }
    let r = if d == 0 {
        "0"
    } else if d == 1 {
        "1"
    } else if d == 2 {
        "2"
    } else if d == 3 {
        "3"
    } else if d == 4 {
        "4"
    } else if d == 5 {
        "5"
    } else if d == 6 {
        "6"
    } else if d == 7 {
        "7"
    } else if d == 8 {
        "8"
    } else {
        "9"
    };
    assert(r@ =~= seq![digit_char(d as nat)]);
    r
}

/// Writes `n` in base ten.
pub fn decimal_string(n: u64) -> (r: String)
    ensures
        r@ == decimal(n as nat),
    decreases n,
{
    if n < 10 {
        String::from_str(digit_str(n))
    } else {
        let mut s = decimal_string(n / 10);
        s.append(digit_str(n % 10));
        assert(s@ =~= decimal(n as nat));
        s
    }
}

} // verus!
