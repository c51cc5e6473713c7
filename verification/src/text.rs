//! Text as sequences of characters: rendering and reading decimal integers.

use vstd::prelude::*;
use vstd::string::*;

verus! {

/// The character of the decimal digit `d`.
pub open spec fn digit_char(d: int) -> char {
    (48 + d) as char
}

/// Whether `c` is one of `0` to `9`.
pub open spec fn is_digit(c: char) -> bool {
    '0' <= c && c <= '9'
}

/// The decimal digits of `n`, without leading zeros.
pub open spec fn nat_text(n: nat) -> Seq<char>
    decreases n,
{
    if n < 10 {
        seq![digit_char(n as int)]
    } else {
        nat_text(n / 10).push(digit_char((n % 10) as int))
    }
}

/// The decimal rendering of `i`, with a leading minus sign when negative.
pub open spec fn int_text(i: int) -> Seq<char> {
    if i < 0 {
        seq!['-'] + nat_text((-i) as nat)
    } else {
        nat_text(i as nat)
    }
}

/// Whether every character of `s` is a decimal digit.
pub open spec fn all_digits(s: Seq<char>) -> bool {
    forall|i: int| 0 <= i < s.len() ==> is_digit(#[trigger] s[i])
}

/// The number that a run of decimal digits denotes.
pub open spec fn digits_value(s: Seq<char>) -> nat
    decreases s.len(),
{
    if s.len() == 0 {
        0
    } else {
        10 * digits_value(s.drop_last()) + (s.last() as int - 48) as nat
    }
}

/// The characters of `s` behind an optional leading sign.
pub open spec fn unsigned_part(s: Seq<char>) -> Seq<char> {
    if s.len() > 0 && (s[0] == '-' || s[0] == '+') {
        s.skip(1)
    } else {
        s
    }
}

/// The integer that `s` denotes: an optional sign followed by at least one digit.
pub open spec fn int_of_text(s: Seq<char>) -> Option<int> {
    let digits = unsigned_part(s);
    if digits.len() > 0 && all_digits(digits) {
        if s[0] == '-' {
            Some(-(digits_value(digits) as int))
        } else {
            Some(digits_value(digits) as int)
        }
    } else {
        None
    }
}

/// The 64-bit integer that `s` denotes, when it denotes one in range.
pub open spec fn i64_of_text(s: Seq<char>) -> Option<i64> {
    match int_of_text(s) {
        Some(i) => if i64::MIN <= i <= i64::MAX {
            Some(i as i64)
        } else {
            None
        },
        None => None,
    }
}

/// The digit `d` as text.
fn digit_text(d: u8) -> (r: &'static str)
    requires
        d < 10,
    ensures
        r@ == seq![digit_char(d as int)],
{
    proof {
        reveal_strlit("0");
        reveal_strlit("1");
        reveal_strlit("2");
        reveal_strlit("3");
        reveal_strlit("4");
        reveal_strlit("5");
        reveal_strlit("6");
        reveal_strlit("7");
        reveal_strlit("8");
        reveal_strlit("9");
    }
    if d == 0 {
        "0"
    } else if d == 1 {
        "1"
    } else if d == 2 {
        "2"
    } else if d == 3 {
        "3"
    } else if d == 4 {
        "4"
    } else if d == 5 {
        "5"
    } else if d == 6 {
        "6"
    } else if d == 7 {
        "7"
    } else if d == 8 {
        "8"
    } else {
        "9"
    }
}

/// Renders `n` in decimal.
pub fn render_u128(n: u128) -> (r: String)
    ensures
        r@ == nat_text(n as nat),
    decreases n,
{
    if n < 10 {
        digit_text(n as u8).to_owned()
    } else {
        let mut s = render_u128(n / 10);
        s.append(digit_text((n % 10) as u8));
        s
    }
}

/// Renders `i` in decimal, with a leading minus sign when negative.
pub fn render_i128(i: i128) -> (r: String)
    requires
        i > i128::MIN,
    ensures
        r@ == int_text(i as int),
{
    if i < 0 {
        proof {
            reveal_strlit("-");
        }
        let digits = render_u128((-i) as u128);
        let mut s = "-".to_owned();
        s.append(digits.as_str());
        assert("-"@ =~= seq!['-']);
        s
    } else {
        render_u128(i as u128)
    }
}

/// A text that may be absent, as a character sequence.
pub open spec fn opt_text(s: Option<String>) -> Option<Seq<char>> {
    match s {
        Some(s) => Some(s@),
        None => None,
    }
}

/// The concatenation of two texts.
pub fn join(a: &str, b: &str) -> (r: String)
    ensures
        r@ == a@ + b@,
{
    let mut s = a.to_owned();
    s.append(b);
    s
}

/// Reads a 64-bit integer: an optional sign followed by decimal digits, and nothing else.
pub fn parse_i64(text: &str) -> (r: Option<i64>)
    ensures
        r == i64_of_text(text@),
{
    let len: usize = text.unicode_len();
    if len == 0 {
        return None;
    }
    let first = text.get_char(0);
    let negative = first == '-';
    let start: usize = if negative || first == '+' { 1 } else { 0 };
    let ghost digits = unsigned_part(text@);
    assert(digits =~= text@.skip(start as int));
    if start == len {
        return None;
    }
    let limit: i128 = 0x8000_0000_0000_0000;
    let mut value: i128 = 0;
    let mut i: usize = start;
    while i < len
        invariant
            len == text@.len(),
            start <= i <= len,
            start <= 1,
            limit == 0x8000_0000_0000_0000,
            digits == text@.skip(start as int),
            digits == unsigned_part(text@),
            all_digits(digits.take(i - start)),
            0 <= value <= limit + 1,
            value <= limit ==> value == digits_value(digits.take(i - start)),
            value > limit ==> digits_value(digits.take(i - start)) > limit,
        decreases len - i,
    {
        let c = text.get_char(i);
        let ghost before = digits.take(i - start);
        let ghost after = digits.take(i + 1 - start);
        assert(c == digits[i - start]);
        if c < '0' || c > '9' {
            assert(!all_digits(digits)) by {
                assert(!is_digit(digits[i - start]));
            }
            return None;
        }
        assert(after.drop_last() =~= before);
        assert(after.last() == c);
        let digit: i128 = (c as u32 - 48) as i128;
        assert(digits_value(after) == 10 * digits_value(before) + digit);
        if value > limit {
            value = limit + 1;
        } else {
            let next: i128 = 10 * value + digit;
            value = if next > limit { limit + 1 } else { next };
        }
        assert(all_digits(after)) by {
            assert forall|k: int| 0 <= k < after.len() implies is_digit(#[trigger] after[k]) by {
                if k < before.len() {
                    assert(after[k] == before[k]);
                }
            }
        }
        i = i + 1;
    }
    assert(digits.take(len - start) =~= digits);
    if negative {
        if value <= limit {
            Some((-value) as i64)
        } else {
            None
        }
    } else if value < limit {
        Some(value as i64)
    } else {
        None
    }
}

/// Rendering never yields an empty text, only digits.
pub proof fn lemma_nat_text_digits(n: nat)
    ensures
        nat_text(n).len() > 0,
        all_digits(nat_text(n)),
        digits_value(nat_text(n)) == n,
    decreases n,
{
    if n < 10 {
        let s = nat_text(n);
        assert(s.drop_last() =~= Seq::<char>::empty());
        assert(s.last() == digit_char(n as int));
        assert(digits_value(s.drop_last()) == 0);
    } else {
        lemma_nat_text_digits(n / 10);
        let prefix = nat_text(n / 10);
        let s = nat_text(n);
        assert(s.drop_last() =~= prefix);
        assert(s.last() == digit_char((n % 10) as int));
        assert forall|k: int| 0 <= k < s.len() implies is_digit(#[trigger] s[k]) by {
            if k < prefix.len() {
                assert(s[k] == prefix[k]);
            }
        }
    }
}

/// Reading back a rendered 64-bit integer yields that integer.
pub proof fn law_rendered_integer_reads_back(i: i64)
    ensures
        i64_of_text(int_text(i as int)) == Some(i),
{
    let s = int_text(i as int);
    if i < 0 {
        lemma_nat_text_digits((-(i as int)) as nat);
        assert(s.skip(1) =~= nat_text((-(i as int)) as nat));
    } else {
        lemma_nat_text_digits(i as nat);
        assert(is_digit(s[0]));
    }
}

} // verus!
