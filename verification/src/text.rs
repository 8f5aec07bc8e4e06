//! Text helpers: substring search and decimal numerals, over sequences of
//! characters.

use vstd::prelude::*;

verus! {

/// `needle` occurs in `haystack` at offset `at`.
pub open spec fn occurs_at(haystack: Seq<char>, needle: Seq<char>, at: int) -> bool {
    &&& 0 <= at
    &&& at + needle.len() <= haystack.len()
    &&& haystack.subrange(at, at + needle.len()) == needle
}

/// `needle` occurs somewhere in `haystack`.
pub open spec fn contains(haystack: Seq<char>, needle: Seq<char>) -> bool {
    exists|at: int| occurs_at(haystack, needle, at)
}

/// The numeral of one decimal digit.
pub open spec fn digit(d: nat) -> char {
    if d == 0 {
        '0'
    } else if d == 1 {
        '1'
    } else if d == 2 {
        '2'
    } else if d == 3 {
        '3'
    } else if d == 4 {
        '4'
    } else if d == 5 {
        '5'
    } else if d == 6 {
        '6'
    } else if d == 7 {
        '7'
    } else if d == 8 {
        '8'
    } else {
        '9'
    }
}

/// The decimal numeral of `n`, without leading zeros.
pub open spec fn decimal(n: nat) -> Seq<char>
    decreases n,
{
    if n < 10 {
        seq![digit(n)]
    } else {
        decimal(n / 10).push(digit(n % 10))
    }
}

/// The characters of `s`, in order.
pub fn chars_of(s: &str) -> (chars: Vec<char>)
    ensures
        chars@ == s@,
{
    let mut chars: Vec<char> = Vec::new();
    for c in it: s.chars()
        invariant
            chars@ == it.seq().take(it.index() as int),
            it.seq() == s@,
    {
        chars.push(c);
    }
    chars
}

/// Whether `needle` stands in `haystack` at offset `at`.
fn matches_at(haystack: &Vec<char>, needle: &Vec<char>, at: usize) -> (hit: bool)
    requires
        at + needle.len() <= haystack.len(),
    ensures
        hit == occurs_at(haystack@, needle@, at as int),
{
    let mut k: usize = 0;
    while k < needle.len()
        invariant
            k <= needle.len(),
            at + needle.len() <= haystack.len(),
            forall|j: int| 0 <= j < k ==> haystack@[at + j] == needle@[j],
        decreases needle.len() - k,
    {
        if haystack[at + k] != needle[k] {
            assert(haystack@.subrange(at as int, at + needle.len())[k as int] != needle@[k as int]);
            return false;
        }
        k += 1;
    }
    assert(haystack@.subrange(at as int, at + needle.len()) =~= needle@);
    true
}

/// Whether `needle` occurs somewhere in `haystack`.
pub fn str_contains(haystack: &str, needle: &str) -> (found: bool)
    ensures
        found == contains(haystack@, needle@),
{
    let hay = chars_of(haystack);
    let pat = chars_of(needle);
    if pat.len() > hay.len() {
        return false;
    }
    let last: usize = hay.len() - pat.len();
    let mut at: usize = 0;
    loop
        invariant
            hay@ == haystack@,
            pat@ == needle@,
            last == hay.len() - pat.len(),
            at <= last,
            forall|i: int| 0 <= i < at ==> !occurs_at(hay@, pat@, i),
        decreases last - at,
    {
        if matches_at(&hay, &pat, at) {
            return true;
        }
        if at == last {
            return false;
        }
        at += 1;
    }
}

/// Appends the numeral of the digit `d` to `text`.
fn push_digit(text: &mut String, d: u16)
    requires
        d < 10,
    ensures
        final(text)@ == old(text)@.push(digit(d as nat)),
{
    proof {
        reveal_strlit("0");
        reveal_strlit("1");
        reveal_strlit("2");
        reveal_strlit("3");
        reveal_strlit("4");
        reveal_strlit("5");
        reveal_strlit("6");
        reveal_strlit("7");
        reveal_strlit("8");
        reveal_strlit("9");
    }
    let numeral: &str = match d {
        0 => "0",
        1 => "1",
        2 => "2",
        3 => "3",
        4 => "4",
        5 => "5",
        6 => "6",
        7 => "7",
        8 => "8",
        _ => "9",
    };
    assert(numeral@ =~= seq![digit(d as nat)]);
    text.append(numeral);
    assert(text@ =~= old(text)@.push(digit(d as nat)));
}

/// Appends the decimal numeral of `n` to `text`.
pub fn push_decimal(text: &mut String, n: u16)
    ensures
        final(text)@ == old(text)@ + decimal(n as nat),
    decreases n,
{
    if n >= 10 {
        push_decimal(text, n / 10);
    }
    push_digit(text, n % 10);
    assert(text@ =~= old(text)@ + decimal(n as nat));
}

} // verus!
