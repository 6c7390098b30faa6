//! Small verified text helpers: comparing strings, finding one text inside
//! another, and writing integers and fixed-point numbers in decimal.

use vstd::prelude::*;

verus! {

/// `needle` occurs in `haystack` starting at position `at`.
pub open spec fn occurs_at(haystack: Seq<char>, needle: Seq<char>, at: int) -> bool {
    &&& 0 <= at
    &&& at + needle.len() <= haystack.len()
    &&& haystack.subrange(at, at + needle.len()) == needle
}

/// `needle` occurs somewhere in `haystack`.
pub open spec fn mentions(haystack: Seq<char>, needle: Seq<char>) -> bool {
    exists|at: int| #[trigger] occurs_at(haystack, needle, at)
}

/// A text that occurs in one part of a longer text occurs in the whole.
pub proof fn lemma_mentioned_in_part(
    before: Seq<char>,
    part: Seq<char>,
    after: Seq<char>,
    needle: Seq<char>,
)
    requires
        mentions(part, needle),
    ensures
        mentions(before + part + after, needle),
{
    let at = choose|at: int| #[trigger] occurs_at(part, needle, at);
    let whole = before + part + after;
    assert(whole.subrange(before.len() + at, before.len() + at + needle.len())
        =~= part.subrange(at, at + needle.len()));
    assert(occurs_at(whole, needle, before.len() + at));
}

/// The character for a single decimal digit.
pub open spec fn digit_char(d: int) -> char {
    if d == 0 {
        '0'
    } else if d == 1 {
        '1'
    } else if d == 2 {
        '2'
    } else if d == 3 {
        '3'
    } else if d == 4 {
        '4'
    } else if d == 5 {
        '5'
    } else if d == 6 {
        '6'
    } else if d == 7 {
        '7'
    } else if d == 8 {
        '8'
    } else {
        '9'
    }
}

/// `n` written in decimal without leading zeros.
pub open spec fn decimal_text(n: nat) -> Seq<char>
    decreases n,
{
    if n < 10 {
        seq![digit_char(n as int)]
    } else {
        decimal_text(n / 10).push(digit_char((n % 10) as int))
    }
}

/// The fractional part of a number of hundredths: nothing for a whole
/// number, otherwise a point and one or two digits, no trailing zero.
pub open spec fn fraction_text(hundredths: nat) -> Seq<char> {
    let f = hundredths % 100;
    if f == 0 {
        Seq::<char>::empty()
    } else if f % 10 == 0 {
        seq!['.', digit_char((f / 10) as int)]
    } else {
        seq!['.', digit_char((f / 10) as int), digit_char((f % 10) as int)]
    }
}

/// A number given in hundredths, written as a decimal: `7250` is `72.5`,
/// `-500` is `-5`, `1025` is `10.25`.
pub open spec fn hundredths_text(value: int) -> Seq<char> {
    let magnitude: nat = if value < 0 {
        (-value) as nat
    } else {
        value as nat
    };
    let sign = if value < 0 {
        seq!['-']
    } else {
        Seq::<char>::empty()
    };
    sign + decimal_text(magnitude / 100) + fraction_text(magnitude)
}

/// Whether two texts hold the same characters.
pub fn same_text(a: &str, b: &str) -> (res: bool)
    ensures
        res == (a@ == b@),
{
    a.to_owned() == b.to_owned()
}

/// The one-character text for a decimal digit.
pub fn digit_text(d: u8) -> (res: &'static str)
    requires
        d < 10,
    ensures
        res@ == seq![digit_char(d as int)],
{
    proof {
        reveal_strlit("0");
        reveal_strlit("1");
        reveal_strlit("2");
        reveal_strlit("3");
        reveal_strlit("4");
        reveal_strlit("5");
        reveal_strlit("6");
        reveal_strlit("7");
        reveal_strlit("8");
        reveal_strlit("9");
    }
    let res: &'static str = if d == 0 {
        "0"
    } else if d == 1 {
        "1"
    } else if d == 2 {
        "2"
    } else if d == 3 {
        "3"
    } else if d == 4 {
        "4"
    } else if d == 5 {
        "5"
    } else if d == 6 {
        "6"
    } else if d == 7 {
        "7"
    } else if d == 8 {
        "8"
    } else {
        "9"
    };
    assert(res@ =~= seq![digit_char(d as int)]);
    res
}

/// Appends `n` in decimal to `out`.
pub fn push_decimal(out: &mut String, n: u64)
    ensures
        final(out)@ == old(out)@ + decimal_text(n as nat),
    decreases n,
{
    if n >= 10 {
        push_decimal(out, n / 10);
    }
    let d: u8 = (n % 10) as u8;
    out.append(digit_text(d));
    assert(final(out)@ =~= old(out)@ + decimal_text(n as nat));
}

/// `n` in decimal.
pub fn decimal_string(n: u64) -> (res: String)
    ensures
        res@ == decimal_text(n as nat),
{
    let mut out = String::new();
    push_decimal(&mut out, n);
    assert(out@ =~= decimal_text(n as nat));
    out
}

/// The magnitude of `value`.
pub fn magnitude(value: i64) -> (res: u64)
    ensures
        res as int == if value < 0 {
            -(value as int)
        } else {
            value as int
        },
{
    if value < 0 {
        let below: i64 = value + 1;
        let flipped: u64 = (-below) as u64;
        flipped + 1
    } else {
        value as u64
    }
}

/// Appends a number of hundredths, written as a decimal, to `out`.
pub fn push_hundredths(out: &mut String, value: i64)
    ensures
        final(out)@ == old(out)@ + hundredths_text(value as int),
{
    let m: u64 = magnitude(value);
    if value < 0 {
        out.append("-");
        proof {
            reveal_strlit("-");
        }
    }
    push_decimal(out, m / 100);
    let f: u8 = (m % 100) as u8;
    if f != 0 {
        out.append(".");
        proof {
            reveal_strlit(".");
        }
        out.append(digit_text(f / 10));
        if f % 10 != 0 {
            out.append(digit_text(f % 10));
        }
    }
    assert(final(out)@ =~= old(out)@ + hundredths_text(value as int));
}

/// The value of a decimal digit, or `None` for any other character.
pub open spec fn digit_value(c: char) -> Option<nat> {
    if '0' <= c && c <= '9' {
        Some((c as u32 - '0' as u32) as nat)
    } else {
        None
    }
}

/// The number that a text of decimal digits writes, or `None` when the text
/// is empty or holds anything but digits.
pub open spec fn decimal_value(text: Seq<char>) -> Option<nat>
    decreases text.len(),
{
    if text.len() == 0 {
        None
    } else {
        match digit_value(text.last()) {
            None => None,
            Some(d) => if text.len() == 1 {
                Some(d)
            } else {
                match decimal_value(text.drop_last()) {
                    None => None,
                    Some(v) => Some(v * 10 + d),
                }
            },
        }
    }
}

/// A text of digits writes a number at least as large as any of its
/// non-empty prefixes does.
pub proof fn lemma_prefix_value(text: Seq<char>, k: int)
    requires
        1 <= k <= text.len(),
        decimal_value(text) is Some,
    ensures
        decimal_value(text.take(k)) is Some,
        decimal_value(text.take(k))->0 <= decimal_value(text)->0,
    decreases text.len(),
{
    if k == text.len() {
        assert(text.take(k) =~= text);
    } else {
        assert(text.drop_last().take(k) =~= text.take(k));
        lemma_prefix_value(text.drop_last(), k);
    }
}

/// A text with a non-digit somewhere writes no number.
pub proof fn lemma_non_digit_has_no_value(text: Seq<char>, k: int)
    requires
        0 <= k < text.len(),
        digit_value(text[k]) is None,
    ensures
        decimal_value(text) is None,
    decreases text.len(),
{
    if k < text.len() - 1 {
        lemma_non_digit_has_no_value(text.drop_last(), k);
    }
}

/// Writing a number in decimal and reading it back gives the number.
pub proof fn lemma_decimal_round_trip(n: nat)
    ensures
        decimal_value(decimal_text(n)) == Some(n),
    decreases n,
{
    if n >= 10 {
        lemma_decimal_round_trip(n / 10);
        let shorter = decimal_text(n / 10);
        assert(decimal_text(n).drop_last() =~= shorter);
        assert(shorter.len() >= 1) by {
            lemma_decimal_text_nonempty(n / 10);
        }
    }
}

/// A number's decimal text has at least one digit.
pub proof fn lemma_decimal_text_nonempty(n: nat)
    ensures
        decimal_text(n).len() >= 1,
    decreases n,
{
    if n >= 10 {
        lemma_decimal_text_nonempty(n / 10);
    }
}

/// What [`parse_decimal`] returns: the number the text writes, when it
/// writes one that fits in 64 bits.
pub open spec fn parsed_decimal(text: Seq<char>) -> Option<u64> {
    match decimal_value(text) {
        Some(v) => if v <= u64::MAX {
            Some(v as u64)
        } else {
            None
        },
        None => None,
    }
}

/// Reads a text of decimal digits as a number. `None` for an empty text, a
/// text with any other character, or a number too large for 64 bits.
pub fn parse_decimal(text: &str) -> (res: Option<u64>)
    ensures
        res == parsed_decimal(text@),
{
    let len: usize = text.unicode_len();
    if len == 0 {
        return None;
    }
    let mut value: u64 = 0;
    let mut i: usize = 0;
    while i < len
        invariant
            i <= len,
            len == text@.len(),
            i > 0 ==> decimal_value(text@.take(i as int)) == Some(value as nat),
            i == 0 ==> value == 0,
        decreases len - i,
    {
        let c: char = text.get_char(i);
        if !('0' <= c && c <= '9') {
            proof {
                lemma_non_digit_has_no_value(text@, i as int);
            }
            return None;
        }
        let d: u64 = (c as u32 - '0' as u32) as u64;
        proof {
            assert(text@.take(i + 1).drop_last() =~= text@.take(i as int));
            assert(text@.take(i + 1).last() == c);
            assert(decimal_value(text@.take(i + 1)) == Some((value * 10 + d) as nat));
        }
        let next: Option<u64> = match value.checked_mul(10) {
            Some(tens) => tens.checked_add(d),
            None => None,
        };
        match next {
            Some(v) => {
                value = v;
            },
            None => {
                proof {
                    if decimal_value(text@) is Some {
                        lemma_prefix_value(text@, i + 1);
                    }
                }
                return None;
            },
        }
        i = i + 1;
    }
    proof {
        assert(text@.take(len as int) =~= text@);
    }
    Some(value)
}

} // verus!
