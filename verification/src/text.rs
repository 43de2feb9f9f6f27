//! Numbers as decimal text, and text as numbers.

use vstd::prelude::*;

verus! {

/// The character of a decimal digit.
pub open spec fn digit(d: nat) -> char {
    (d + '0' as nat) as char
}

/// A number in decimal, without leading zeros.
pub open spec fn decimal(n: nat) -> Seq<char>
    decreases n,
{
    if n < 10 {
        seq![digit(n)]
    } else {
        decimal(n / 10).push(digit(n % 10))
    }
}

/// A number in decimal, at least two digits wide.
pub open spec fn padded(n: nat) -> Seq<char> {
    if n < 10 {
        seq!['0', digit(n)]
    } else {
        decimal(n)
    }
}

fn digit_text(d: u16) -> (s: &'static str)
    requires
        d < 10,
    ensures
        s@ == seq![digit(d as nat)],
{
    proof {
        reveal_strlit("0");
        reveal_strlit("1");
        reveal_strlit("2");
        reveal_strlit("3");
        reveal_strlit("4");
        reveal_strlit("5");
        reveal_strlit("6");
        reveal_strlit("7");
        reveal_strlit("8");
        reveal_strlit("9");
    }
    let s = match d {
        0 => "0",
        1 => "1",
        2 => "2",
        3 => "3",
        4 => "4",
        5 => "5",
        6 => "6",
        7 => "7",
        8 => "8",
        _ => "9",
    };
    assert(s@ =~= seq![digit(d as nat)]);
    s
}

fn append_decimal(s: &mut String, n: u16)
    ensures
        final(s)@ == old(s)@ + decimal(n as nat),
    decreases n,
{
    if n >= 10 {
        append_decimal(s, n / 10);
    }
    s.append(digit_text(n % 10));
    assert(s@ =~= old(s)@ + decimal(n as nat));
}

/// Appends a number in decimal, at least two digits wide.
pub fn append_padded(s: &mut String, n: u16)
    ensures
        final(s)@ == old(s)@ + padded(n as nat),
{
    if n < 10 {
        s.append("0");
        s.append(digit_text(n));
        proof {
            reveal_strlit("0");
            assert(s@ =~= old(s)@ + padded(n as nat));
        }
    } else {
        append_decimal(s, n);
    }
}

/// The number that a row of decimal digits stands for.
pub open spec fn digits_value(s: Seq<char>) -> int
    decreases s.len(),
{
    if s.len() == 0 {
        0
    } else {
        digits_value(s.drop_last()) * 10 + (s.last() as int - '0' as int)
    }
}

/// Whether the text is a non-empty row of decimal digits.
pub open spec fn is_digits(s: Seq<char>) -> bool {
    s.len() > 0 && forall|i: int| 0 <= i < s.len() ==> '0' <= #[trigger] s[i] <= '9'
}

/// The text without a plus sign at its front.
pub open spec fn without_plus(s: Seq<char>) -> Seq<char> {
    if s.len() > 0 && s[0] == '+' {
        s.skip(1)
    } else {
        s
    }
}

/// The number that a text stands for: decimal digits, with a plus sign before them at will, whose
/// value fits in 64 bits.
pub open spec fn parsed_u64(s: Seq<char>) -> Option<u64> {
    let digits = without_plus(s);
    if is_digits(digits) && digits_value(digits) <= u64::MAX {
        Some(digits_value(digits) as u64)
    } else {
        None
    }
}

/// Reads a number from a text, if it stands for one.
pub fn parse_u64(s: &str) -> (n: Option<u64>)
    ensures
        n == parsed_u64(s@),
{
    broadcast use vstd::string::axiom_spec_iter;

    let ghost digits = without_plus(s@);
    let ghost plus: int = s@.len() - digits.len();
    let mut at_front = true;
    let mut any = false;
    let mut value: u64 = 0;
    for c in it: s.chars()
        invariant
            it.seq() == s@,
            digits == without_plus(s@),
            plus == s@.len() - digits.len(),
            at_front == (it.index() == 0),
            any == (it.index() > plus),
            it.index() <= plus ==> value == 0,
            it.index() > plus ==> value == digits_value(digits.take(it.index() - plus)),
            forall|j: int| 0 <= j < it.index() - plus ==> '0' <= #[trigger] digits[j] <= '9',
    {
        if at_front && c == '+' {
            at_front = false;
        } else {
            let ghost k: int = it.index() - plus;
            assert(digits[k] == c);
            if c < '0' || '9' < c {
                return None;
            }
            let digit: u64 = c as u64 - '0' as u64;
            assert(k == 0 ==> digits.take(k) =~= Seq::<char>::empty());
            assert(digits.take(k + 1).drop_last() =~= digits.take(k));
            assert(digits_value(digits.take(k)) == value);
            assert(digits.take(k + 1).last() == c);
            assert(digits_value(digits.take(k + 1)) == value * 10 + digit);
            if value > (u64::MAX - digit) / 10 {
                proof {
                    if is_digits(digits) {
                        prefix_is_no_greater(digits, k + 1);
                    }
                }
                return None;
            }
            value = value * 10 + digit;
            any = true;
            at_front = false;
        }
    }
    assert(digits.take(digits.len() as int) =~= digits);
    if any {
        Some(value)
    } else {
        None
    }
}

/// A row of digits stands for no less than a part of it from the front does.
pub(crate) proof fn prefix_is_no_greater(s: Seq<char>, n: int)
    requires
        is_digits(s),
        0 <= n <= s.len(),
    ensures
        0 <= digits_value(s.take(n)) <= digits_value(s),
    decreases s.len() - n,
{
    value_is_not_negative(s, n);
    if n < s.len() {
        prefix_is_no_greater(s, n + 1);
        assert(s.take(n + 1).drop_last() =~= s.take(n));
    } else {
        assert(s.take(n) =~= s);
    }
}

proof fn value_is_not_negative(s: Seq<char>, n: int)
    requires
        is_digits(s),
        0 <= n <= s.len(),
    ensures
        0 <= digits_value(s.take(n)),
    decreases n,
{
    if n > 0 {
        value_is_not_negative(s, n - 1);
        assert(s.take(n).drop_last() =~= s.take(n - 1));
    }
}

/// The decimal text of a number stands for that number.
pub proof fn decimal_stands_for_its_number(n: nat)
    ensures
        is_digits(decimal(n)),
        digits_value(decimal(n)) == n,
    decreases n,
{
    reveal_with_fuel(digits_value, 2);
    if n >= 10 {
        decimal_stands_for_its_number(n / 10);
        assert(decimal(n).drop_last() =~= decimal(n / 10));
    } else {
        assert(decimal(n).drop_last() =~= Seq::<char>::empty());
    }
}

/// A number in decimal is read back as that number.
pub proof fn decimal_is_read_back(n: u64)
    ensures
        parsed_u64(decimal(n as nat)) == Some(n),
{
    decimal_stands_for_its_number(n as nat);
}

pub(crate) proof fn padded_has_no_colon(n: nat)
    ensures
        !padded(n).contains(':'),
{
    decimal_stands_for_its_number(n);
    assert forall|i: int| 0 <= i < padded(n).len() implies padded(n)[i] != ':' by {
        if n >= 10 {
            assert(decimal(n)[i] <= '9');
        }
    }
}

pub(crate) proof fn padded_is_unambiguous(a: nat, b: nat)
    requires
        padded(a) == padded(b),
    ensures
        a == b,
{
    padded_value(a);
    padded_value(b);
}

proof fn padded_value(n: nat)
    ensures
        digits_value(padded(n)) == n,
{
    reveal_with_fuel(digits_value, 3);
    if n < 10 {
        assert(padded(n).drop_last() =~= seq!['0']);
        assert(seq!['0'].drop_last() =~= Seq::<char>::empty());
    } else {
        decimal_stands_for_its_number(n);
    }
}

}
