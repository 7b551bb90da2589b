//! Characters and strings as sequences: whitespace, comparison and decimal numerals.

use vstd::prelude::*;
use vstd::string::*;

verus! {

/// Whether `c` separates words: the characters with the Unicode property `White_Space`.
pub open spec fn is_space(c: char) -> bool {
    let u = c as u32;
    ||| 0x09 <= u <= 0x0D
    ||| u == 0x20
    ||| u == 0x85
    ||| u == 0xA0
    ||| u == 0x1680
    ||| 0x2000 <= u <= 0x200A
    ||| u == 0x2028
    ||| u == 0x2029
    ||| u == 0x202F
    ||| u == 0x205F
    ||| u == 0x3000
}

/// Decides [`is_space`].
pub fn is_whitespace(c: char) -> (r: bool)
    ensures
        r == is_space(c),
{
    let u: u32 = c as u32;
    (0x09 <= u && u <= 0x0D) || u == 0x20 || u == 0x85 || u == 0xA0 || u == 0x1680 || (0x2000 <= u
        && u <= 0x200A) || u == 0x2028 || u == 0x2029 || u == 0x202F || u == 0x205F || u == 0x3000
}

/// The characters of `s`, in order.
pub fn to_chars(s: &str) -> (r: Vec<char>)
    ensures
        r@ == s@,
{
    let mut out: Vec<char> = Vec::new();
    for c in it: s.chars()
        invariant
            it.seq() == s@,
            out@ == s@.take(it.index()),
    {
        out.push(c);
    }
    out
}

/// Holds `text` against the beginning of `chars`: whether `chars` begins with it and, if
/// so, how many characters `text` has.
fn match_front(chars: &[char], text: &str) -> (r: (bool, usize))
    ensures
        r.0 == text@.is_prefix_of(chars@),
        r.0 ==> r.1 == text@.len(),
{
    let mut i: usize = 0;
    let mut same = true;
    for c in it: text.chars()
        invariant
            it.seq() == text@,
            same ==> i == it.index() && i <= chars@.len() && chars@.take(i as int) == text@.take(
                i as int,
            ),
            !same ==> !text@.is_prefix_of(chars@),
    {
        if same {
            if i < chars.len() && chars[i] == c {
                assert(chars@.take(i + 1) == chars@.take(i as int).push(chars@[i as int]));
                assert(text@.take(i + 1) == text@.take(i as int).push(text@[i as int]));
                i += 1;
            } else {
                same = false;
                proof {
                    if i < chars@.len() && text@.len() <= chars@.len() {
                        assert(chars@.subrange(0, text@.len() as int)[i as int] != text@[i as int]);
                    }
                }
            }
        }
    }
    proof {
        if same {
            assert(text@.take(i as int) == text@);
            assert(chars@.take(i as int) == chars@.subrange(0, text@.len() as int));
        }
    }
    (same, i)
}

/// Whether `chars` begins with `prefix`.
pub fn starts_with(chars: &[char], prefix: &str) -> (r: bool)
    ensures
        r == prefix@.is_prefix_of(chars@),
{
    match_front(chars, prefix).0
}

/// Whether `chars` spells exactly `text`.
pub fn equals_str(chars: &[char], text: &str) -> (r: bool)
    ensures
        r == (chars@ == text@),
{
    let (begins, len) = match_front(chars, text);
    proof {
        if begins && len == chars@.len() {
            assert(chars@.subrange(0, text@.len() as int) == chars@);
        }
        if chars@ == text@ {
            assert(chars@.subrange(0, text@.len() as int) == chars@);
        }
    }
    begins && len == chars.len()
}

/// Whether `a` and `b` spell the same text.
pub fn same_text(a: &str, b: &str) -> (r: bool)
    ensures
        r == (a@ == b@),
{
    let chars = to_chars(a);
    equals_str(chars.as_slice(), b)
}

/// What the strings `lines` hold, in order.
pub open spec fn texts(lines: Seq<String>) -> Seq<Seq<char>> {
    Seq::new(lines.len(), |i: int| lines[i]@)
}

/// The decimal digit for `d`.
pub open spec fn digit(d: int) -> char {
    if d == 0 {
        '0'
    } else if d == 1 {
        '1'
    } else if d == 2 {
        '2'
    } else if d == 3 {
        '3'
    } else if d == 4 {
        '4'
    } else if d == 5 {
        '5'
    } else if d == 6 {
        '6'
    } else if d == 7 {
        '7'
    } else if d == 8 {
        '8'
    } else {
        '9'
    }
}

/// The decimal numeral of `n`, without leading zeros.
pub open spec fn decimal(n: nat) -> Seq<char>
    decreases n,
{
    if n < 10 {
        seq![digit(n as int)]
    } else {
        decimal(n / 10).push(digit((n % 10) as int))
    }
}

fn digit_str(d: u32) -> (r: &'static str)
    requires
        d < 10,
    ensures
        r@ == seq![digit(d as int)],
{
    proof {
        reveal_strlit("0");
        reveal_strlit("1");
        reveal_strlit("2");
        reveal_strlit("3");
        reveal_strlit("4");
        reveal_strlit("5");
        reveal_strlit("6");
        reveal_strlit("7");
        reveal_strlit("8");
        reveal_strlit("9");
    }
    let r = if d == 0 {
        "0"
    } else if d == 1 {
        "1"
    } else if d == 2 {
        "2"
    } else if d == 3 {
        "3"
    } else if d == 4 {
        "4"
    } else if d == 5 {
        "5"
    } else if d == 6 {
        "6"
    } else if d == 7 {
        "7"
    } else if d == 8 {
        "8"
    } else {
        "9"
    };
    assert(r@ =~= seq![digit(d as int)]);
    r
}

/// Writes `n` as a decimal numeral.
pub fn decimal_string(n: u32) -> (r: String)
    ensures
        r@ == decimal(n as nat),
    decreases n,
{
    if n < 10 {
        String::from_str(digit_str(n))
    } else {
        let mut r = decimal_string(n / 10);
        r.append(digit_str(n % 10));
        assert(decimal(n as nat) == decimal((n / 10) as nat) + seq![digit((n % 10) as int)]);
        r
    }
}

} // verus!
