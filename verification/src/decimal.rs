//! Natural numbers as decimal text.

use vstd::prelude::*;
use vstd::string::StringExecFns;

verus! {

/// The character of the decimal digit `d`.
pub open spec fn digit(d: nat) -> char
    recommends
        d < 10,
{
    if d == 0 {
        '0'
    } else if d == 1 {
        '1'
    } else if d == 2 {
        '2'
    } else if d == 3 {
        '3'
    } else if d == 4 {
        '4'
    } else if d == 5 {
        '5'
    } else if d == 6 {
        '6'
    } else if d == 7 {
        '7'
    } else if d == 8 {
        '8'
    } else {
        '9'
    }
}

/// The value of the decimal digit `c`, if it is one.
pub open spec fn digit_value(c: char) -> Option<nat> {
    if c == '0' {
        Some(0)
    } else if c == '1' {
        Some(1)
    } else if c == '2' {
        Some(2)
    } else if c == '3' {
        Some(3)
    } else if c == '4' {
        Some(4)
    } else if c == '5' {
        Some(5)
    } else if c == '6' {
        Some(6)
    } else if c == '7' {
        Some(7)
    } else if c == '8' {
        Some(8)
    } else if c == '9' {
        Some(9)
    } else {
        None
    }
}

/// The decimal text of `n`, without leading zeros.
pub open spec fn decimal_text(n: nat) -> Seq<char>
    decreases n,
{
    if n < 10 {
        seq![digit(n)]
    } else {
        decimal_text(n / 10).push(digit(n % 10))
    }
}

/// The number that `s` denotes, if `s` is a non-empty run of decimal digits.
pub open spec fn decimal_value(s: Seq<char>) -> Option<nat>
    decreases s.len(),
{
    if s.len() == 0 {
        None
    } else if s.len() == 1 {
        digit_value(s[0])
    } else {
        match (decimal_value(s.drop_last()), digit_value(s.last())) {
            (Some(v), Some(d)) => Some(10 * v + d),
            _ => None,
        }
    }
}

/// Reading back the decimal text of a number gives the number.
pub proof fn lemma_decimal_round_trip(n: nat)
    ensures
        decimal_value(decimal_text(n)) == Some(n),
        decimal_text(n).len() >= 1,
    decreases n,
{
    if n < 10 {
        assert(decimal_text(n).len() == 1);
        assert(decimal_text(n)[0] == digit(n));
    } else {
        lemma_decimal_round_trip(n / 10);
        let t = decimal_text(n / 10);
        let s = t.push(digit(n % 10));
        assert(s.drop_last() =~= t);
        assert(s.last() == digit(n % 10));
        assert(digit_value(digit(n % 10)) == Some(n % 10));
        assert(10 * (n / 10) + n % 10 == n);
    }
}

/// Text that denotes a number keeps denoting one, no smaller, when digits
/// are appended; text that denotes none never does.
pub proof fn lemma_decimal_prefix(s: Seq<char>, k: int)
    requires
        1 <= k <= s.len(),
    ensures
        decimal_value(s.take(k)).is_none() ==> decimal_value(s).is_none(),
        decimal_value(s).is_some() ==> decimal_value(s.take(k)).unwrap() <= decimal_value(
            s,
        ).unwrap(),
    decreases s.len() - k,
{
    if k == s.len() {
        assert(s.take(k) =~= s);
    } else {
        lemma_decimal_prefix(s, k + 1);
        let longer = s.take(k + 1);
        assert(longer.drop_last() =~= s.take(k));
    }
}

/// The text of one decimal digit.
pub fn digit_str(d: u8) -> (r: &'static str)
    requires
        d < 10,
    ensures
        r@ == seq![digit(d as nat)],
{
    proof {
        reveal_strlit("0");
        reveal_strlit("1");
        reveal_strlit("2");
        reveal_strlit("3");
        reveal_strlit("4");
        reveal_strlit("5");
        reveal_strlit("6");
        reveal_strlit("7");
        reveal_strlit("8");
        reveal_strlit("9");
    }
    let r = if d == 0 {
        "0"
    } else if d == 1 {
        "1"
    } else if d == 2 {
        "2"
    } else if d == 3 {
        "3"
    } else if d == 4 {
        "4"
    } else if d == 5 {
        "5"
    } else if d == 6 {
        "6"
    } else if d == 7 {
        "7"
    } else if d == 8 {
        "8"
    } else {
        "9"
    };
    assert(r@ =~= seq![digit(d as nat)]);
    r
}

/// The value of a character as a decimal digit.
pub fn digit_of(c: char) -> (r: Option<u8>)
    ensures
        match r {
            Some(d) => digit_value(c) == Some(d as nat) && d < 10,
            None => digit_value(c).is_none(),
        },
{
    if c == '0' {
        Some(0)
    } else if c == '1' {
        Some(1)
    } else if c == '2' {
        Some(2)
    } else if c == '3' {
        Some(3)
    } else if c == '4' {
        Some(4)
    } else if c == '5' {
        Some(5)
    } else if c == '6' {
        Some(6)
    } else if c == '7' {
        Some(7)
    } else if c == '8' {
        Some(8)
    } else if c == '9' {
        Some(9)
    } else {
        None
    }
}

/// The decimal text of `n`.
pub fn to_decimal(n: u128) -> (r: String)
    ensures
        r@ == decimal_text(n as nat),
    decreases n,
{
    if n < 10 {
        String::from_str(digit_str(n as u8))
    } else {
        let mut r = to_decimal(n / 10);
        r.append(digit_str((n % 10) as u8));
        assert(r@ =~= decimal_text(n as nat));
        r
    }
}

/// The number that `s` denotes: `None` where `s` is not a non-empty run of
/// decimal digits, or denotes a number above the largest `u128`.
pub fn parse_decimal(s: &str) -> (r: Option<u128>)
    ensures
        r == match decimal_value(s@) {
            Some(v) => if v <= u128::MAX {
                Some(v as u128)
            } else {
                None
            },
            None => None::<u128>,
        },
{
    let len = s.unicode_len();
    if len == 0 {
        return None;
    }
    let mut acc: u128 = 0;
    let mut i: usize = 0;
    while i < len
        invariant
            i <= len,
            len == s@.len(),
            len > 0,
            i > 0 ==> decimal_value(s@.take(i as int)) == Some(acc as nat),
            i == 0 ==> acc == 0,
        decreases len - i,
    {
        let c = s.get_char(i);
        let ghost longer = s@.take(i + 1);
        proof {
            assert(longer.last() == c);
            if i > 0 {
                assert(longer.drop_last() =~= s@.take(i as int));
            }
        }
        match digit_of(c) {
            None => {
                proof {
                    lemma_decimal_prefix(s@, i + 1);
                }
                return None;
            },
            Some(d) => {
                if acc > (u128::MAX - d as u128) / 10 {
                    proof {
                        assert(10 * acc + d > u128::MAX);
                        lemma_decimal_prefix(s@, i + 1);
                    }
                    return None;
                }
                acc = acc * 10 + d as u128;
            },
        }
        i += 1;
    }
    proof {
        assert(s@.take(len as int) =~= s@);
    }
    Some(acc)
}

/// The number that `s` denotes as an unsigned number: a non-empty run of
/// decimal digits, after a plus sign or not.
pub open spec fn unsigned_value(s: Seq<char>) -> Option<nat> {
    if s.len() > 0 && s[0] == '+' {
        decimal_value(s.drop_first())
    } else {
        decimal_value(s)
    }
}

/// The number that `s` denotes as an unsigned number: `None` where `s` is
/// not a non-empty run of decimal digits, after a plus sign or not, or
/// denotes a number above the largest `u128`.
pub fn parse_unsigned(s: &str) -> (r: Option<u128>)
    ensures
        r == match unsigned_value(s@) {
            Some(v) => if v <= u128::MAX {
                Some(v as u128)
            } else {
                None
            },
            None => None::<u128>,
        },
{
    let len = s.unicode_len();
    if len > 0 && s.get_char(0) == '+' {
        let digits = s.substring_char(1, len);
        assert(digits@ =~= s@.drop_first());
        parse_decimal(digits)
    } else {
        parse_decimal(s)
    }
}

/// The decimal text of a number is read as an unsigned number as it is read
/// as a run of digits.
pub proof fn lemma_unsigned_round_trip(n: nat)
    ensures
        unsigned_value(decimal_text(n)) == Some(n),
    decreases n,
{
    lemma_decimal_round_trip(n);
    lemma_decimal_starts_with_digit(n);
}

/// The decimal text of a number starts with a digit.
pub proof fn lemma_decimal_starts_with_digit(n: nat)
    ensures
        decimal_text(n).len() > 0,
        decimal_text(n)[0] != '-',
        decimal_text(n)[0] != '+',
    decreases n,
{
    if n >= 10 {
        lemma_decimal_starts_with_digit(n / 10);
    }
}

} // verus!
