//! Numbers as text and text as numbers, call by call.

use crate::text;
use crate::text::{append_padded, parse_u64};
use vstd::prelude::*;

verus! {

/// A number is written behind what was there, in two digits or, where it takes more, as many as
/// it takes.
pub proof fn numbers_are_written_in_decimal(s: &mut String, n: u16)
    requires
        call_ensures(append_padded, (s, n), ()),
    ensures
        ({
            let t = final(s)@.skip(old(s)@.len() as int);
            let d = |i: int| t[i] as int - 48;
            &&& final(s)@ == old(s)@ + t
            &&& forall|i: int| 0 <= i < t.len() ==> '0' <= #[trigger] t[i] <= '9'
            &&& t.len() == (if n < 100 {
                2int
            } else if n < 1000 {
                3
            } else if n < 10000 {
                4
            } else {
                5
            })
            &&& n == (if n < 100 {
                10 * d(0) + d(1)
            } else if n < 1000 {
                100 * d(0) + 10 * d(1) + d(2)
            } else if n < 10000 {
                1000 * d(0) + 100 * d(1) + 10 * d(2) + d(3)
            } else {
                10000 * d(0) + 1000 * d(1) + 100 * d(2) + 10 * d(3) + d(4)
            })
        }),
{
    reveal_with_fuel(text::decimal, 6);
    assert(final(s)@.skip(old(s)@.len() as int) =~= text::padded(n as nat));
}

/// No number is read from nothing, nor from a text that ends in something other than a digit.
pub proof fn only_digits_end_a_number(s: &str, n: Option<u64>)
    requires
        call_ensures(parse_u64, (s,), n),
        s@.len() > 0 ==> !('0' <= s@.last() <= '9'),
    ensures
        n is None,
{
    if s@.len() > 0 {
        let digits = text::without_plus(s@);
        if digits.len() > 0 {
            assert(digits.last() == s@.last());
            assert(digits[digits.len() - 1] == s@.last());
        }
    }
}

/// A digit on its own, or behind a plus sign, is read as its number; one behind a number makes it
/// ten times as great and adds its own, as long as that fits in 64 bits; and nothing makes up for
/// what is no number.
pub proof fn digits_make_up_a_number(
    front: &str,
    n: Option<u64>,
    whole: &str,
    digit: char,
    m: Option<u64>,
)
    requires
        call_ensures(parse_u64, (front,), n),
        call_ensures(parse_u64, (whole,), m),
        '0' <= digit <= '9',
        whole@ == front@.push(digit),
    ensures
        front@.len() == 0 || front@ == seq!['+'] ==> m == Some((digit as int - 48) as u64),
        front@.len() > 0 && front@ != seq!['+'] ==> match n {
            None => m is None,
            Some(n) => if n * 10 + (digit as int - 48) <= u64::MAX {
                m == Some((n * 10 + (digit as int - 48)) as u64)
            } else {
                m is None
            },
        },
{
    reveal_with_fuel(text::digits_value, 2);
    let f = text::without_plus(front@);
    let w = text::without_plus(whole@);
    if front@.len() == 0 {
        assert(w =~= seq![digit]);
        assert(w.drop_last() =~= Seq::<char>::empty());
    } else {
        assert(w =~= f.push(digit));
        assert(w.drop_last() =~= f);
        assert(forall|i: int| 0 <= i < f.len() ==> w[i] == f[i]);
        assert(w[f.len() as int] == digit);
        if f.len() == 0 {
            assert(front@ =~= seq!['+']);
        } else {
            if front@ == seq!['+'] {
                assert(f =~= Seq::<char>::empty());
            }
            if text::is_digits(w) {
                assert forall|i: int| 0 <= i < f.len() implies '0' <= #[trigger] f[i] <= '9' by {
                    assert(w[i] == f[i]);
                }
                text::prefix_is_no_greater(w, f.len() as int);
                assert(w.take(f.len() as int) =~= f);
            }
        }
    }
}

}
