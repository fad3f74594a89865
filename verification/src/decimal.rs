//! Reading an index that is written in decimal digits.
//!
//! An index is written as one or more of the digits `0` to `9`, with an optional
//! `+` in front and nothing else: no sign but `+`, no blanks, no separators. A
//! number that does not fit in `usize` is not an index.

use vstd::prelude::*;

verus! {

/// Whether a character is one of the ten decimal digits.
pub open spec fn is_digit(c: char) -> bool {
    '0' <= c <= '9'
}

/// The number that a decimal digit stands for.
pub open spec fn digit_value(c: char) -> nat
    recommends
        is_digit(c),
{
    (c as u32 - '0' as u32) as nat
}

/// Whether a text is made of decimal digits only.
pub open spec fn all_digits(s: Seq<char>) -> bool {
    forall|i: int| 0 <= i < s.len() ==> is_digit(#[trigger] s[i])
}

/// The number that a text of decimal digits stands for; 0 for the empty text.
pub open spec fn digits_value(s: Seq<char>) -> nat
    recommends
        all_digits(s),
    decreases s.len(),
{
    if s.len() == 0 {
        0
    } else {
        10 * digits_value(s.drop_last()) + digit_value(s.last())
    }
}

/// A text without the `+` that may stand in front of it.
pub open spec fn unsigned_part(s: Seq<char>) -> Seq<char> {
    if s.len() > 0 && s[0] == '+' {
        s.drop_first()
    } else {
        s
    }
}

/// The index that a text stands for, if it stands for one.
pub open spec fn spec_parse_index(s: Seq<char>) -> Option<usize> {
    let digits = unsigned_part(s);
    if digits.len() > 0 && all_digits(digits) && digits_value(digits) <= usize::MAX {
        Some(digits_value(digits) as usize)
    } else {
        None
    }
}

/// The digit that stands for a number below ten.
pub open spec fn digit_char(d: nat) -> char
    recommends
        d < 10,
{
    ('0' as u8 + d) as u8 as char
}

/// A number written in decimal digits, without a sign or leading zeros.
pub open spec fn decimal_text(n: nat) -> Seq<char>
    decreases n,
{
    if n < 10 {
        seq![digit_char(n)]
    } else {
        decimal_text(n / 10).push(digit_char(n % 10))
    }
}

/// A longer text of digits stands for no smaller number than its beginning.
proof fn lemma_value_grows(s: Seq<char>, k: int)
    requires
        0 <= k <= s.len(),
    ensures
        digits_value(s.take(k)) <= digits_value(s),
    decreases s.len() - k,
{
    if k == s.len() {
        assert(s.take(k) =~= s);
    } else {
        lemma_value_grows(s.drop_last(), k);
        assert(s.drop_last().take(k) =~= s.take(k));
    }
}

/// Reads an index from its decimal text.
pub fn parse_index(token: &str) -> (r: Option<usize>)
    ensures
        r == spec_parse_index(token@),
{
    let mut acc: usize = 0;
    let mut first = true;
    let mut signed = false;
    let mut any = false;
    for c in it: token.chars()
        invariant
            it.seq() == token@,
            first == (it.index() == 0),
            signed ==> it.index() >= 1 && token@[0] == '+',
            any == (it.index() > (if signed { 1int } else { 0int })),
            all_digits(token@.subrange(if signed { 1int } else { 0int }, it.index() as int)),
            acc == digits_value(
                token@.subrange(if signed { 1int } else { 0int }, it.index() as int),
            ),
    {
        let ghost start = if signed { 1int } else { 0int };
        let ghost at = it.index() as int;
        let ghost digits = unsigned_part(token@);
        if first && c == '+' {
            signed = true;
            first = false;
        } else {
            proof {
                if at > start {
                    assert(is_digit(token@.subrange(start, at)[0]));
                }
                assert(digits[at - start] == c);
            }
            if !(c >= '0' && c <= '9') {
                return None;
            }
            let d: usize = (c as u32 - '0' as u32) as usize;
            let ghost seen = token@.subrange(start, at + 1);
            proof {
                assert(seen.drop_last() =~= token@.subrange(start, at));
                assert(seen =~= digits.take(at + 1 - start));
            }
            if acc > (usize::MAX - d) / 10 {
                proof {
                    lemma_value_grows(digits, at + 1 - start);
                }
                return None;
            }
            acc = acc * 10 + d;
            first = false;
            any = true;
        }
    }
    proof {
        let start = if signed { 1int } else { 0int };
        let digits = unsigned_part(token@);
        if any && !signed {
            assert(is_digit(token@.subrange(start, token@.len() as int)[0]));
        }
        assert(digits =~= token@.subrange(start, token@.len() as int));
    }
    if any {
        Some(acc)
    } else {
        None
    }
}

/// The value of a digit is the number it was written for.
proof fn lemma_digit_char(d: nat)
    requires
        d < 10,
    ensures
        is_digit(digit_char(d)),
        digit_value(digit_char(d)) == d,
        digit_char(d) != '+',
{
}

/// A number's decimal text is made of digits and stands for the number.
pub proof fn lemma_decimal_text(n: nat)
    ensures
        decimal_text(n).len() > 0,
        all_digits(decimal_text(n)),
        digits_value(decimal_text(n)) == n,
        unsigned_part(decimal_text(n)) == decimal_text(n),
    decreases n,
{
    let t = decimal_text(n);
    if n < 10 {
        lemma_digit_char(n);
        assert(digits_value(t) == 10 * digits_value(t.drop_last()) + digit_value(t.last()));
    } else {
        lemma_decimal_text(n / 10);
        lemma_digit_char(n % 10);
        let head = decimal_text(n / 10);
        assert(t.drop_last() =~= head);
    }
}

/// A text that holds anything but digits behind an optional `+` in front is
/// no index.
pub proof fn lemma_other_character_is_no_index(s: Seq<char>, i: int)
    requires
        0 <= i < s.len(),
        !is_digit(s[i]),
        !(i == 0 && s[0] == '+'),
    ensures
        spec_parse_index(s) is None,
{
    let digits = unsigned_part(s);
    let at = if s[0] == '+' {
        i - 1
    } else {
        i
    };
    assert(digits[at] == s[i]);
}

/// A text without a digit is no index.
pub proof fn lemma_no_digit_is_no_index(s: Seq<char>)
    requires
        s.len() == 0 || (s.len() == 1 && s[0] == '+'),
    ensures
        spec_parse_index(s) is None,
{
}

/// Reading a number's decimal text gives the number back, where it fits in
/// `usize`, and nothing where it does not.
pub proof fn lemma_parse_decimal_text(n: nat)
    ensures
        n <= usize::MAX ==> spec_parse_index(decimal_text(n)) == Some(n as usize),
        n > usize::MAX ==> spec_parse_index(decimal_text(n)) is None,
{
    lemma_decimal_text(n);
}

} // verus!
