//! Decimal rendering of integer quantities.
//!
//! Sensor values are carried as tenths of a unit (one implied decimal
//! place), so the status screen's `{value}.{d}` lines reduce to integer
//! digit printing.

use vstd::prelude::*;

verus! {

/// Relies on `String::push`: appends the given character to the end of
/// this `String`.
pub assume_specification[ String::push ](s: &mut String, ch: char)
    ensures
        final(s)@ == old(s)@.push(ch),
;

/// The character for a single decimal digit.
pub open spec fn spec_digit_char(d: nat) -> char {
    if d == 0 {
        '0'
    } else if d == 1 {
        '1'
    } else if d == 2 {
        '2'
    } else if d == 3 {
        '3'
    } else if d == 4 {
        '4'
    } else if d == 5 {
        '5'
    } else if d == 6 {
        '6'
    } else if d == 7 {
        '7'
    } else if d == 8 {
        '8'
    } else {
        '9'
    }
}

/// Base-10 digit string of `n`, most significant digit first, with no
/// leading zeros (a lone `'0'` for zero).
pub open spec fn spec_digits(n: nat) -> Seq<char>
    decreases n,
{
    if n < 10 {
        seq![spec_digit_char(n)]
    } else {
        spec_digits(n / 10).push(spec_digit_char(n % 10))
    }
}

/// A value in tenths printed with exactly one decimal place:
/// sign, whole part, `'.'`, final digit.
pub open spec fn spec_format_tenths(t: int) -> Seq<char> {
    let m = if t < 0 {
        -t
    } else {
        t
    };
    let sign = if t < 0 {
        seq!['-']
    } else {
        Seq::<char>::empty()
    };
    sign + spec_digits((m / 10) as nat) + seq!['.'] + seq![spec_digit_char((m % 10) as nat)]
}

fn digit_char(d: u64) -> (c: char)
    requires
        d < 10,
    ensures
        c == spec_digit_char(d as nat),
{
    if d == 0 {
        '0'
    } else if d == 1 {
        '1'
    } else if d == 2 {
        '2'
    } else if d == 3 {
        '3'
    } else if d == 4 {
        '4'
    } else if d == 5 {
        '5'
    } else if d == 6 {
        '6'
    } else if d == 7 {
        '7'
    } else if d == 8 {
        '8'
    } else {
        '9'
    }
}

/// Base-10 rendering of an unsigned integer.
pub fn u64_to_string(n: u64) -> (s: String)
    ensures
        s@ == spec_digits(n as nat),
    decreases n,
{
    if n < 10 {
        let mut s = String::new();
        s.push(digit_char(n));
        proof {
            assert(s@ =~= spec_digits(n as nat));
        }
        s
    } else {
        let mut s = u64_to_string(n / 10);
        s.push(digit_char(n % 10));
        proof {
            assert(s@ =~= spec_digits(n as nat));
        }
        s
    }
}

/// Renders a value in tenths with exactly one decimal place, as the
/// status screen shows temperature and humidity.
pub fn format_tenths(t: i32) -> (s: String)
    ensures
        s@ == spec_format_tenths(t as int),
{
    let m: u64 = if t < 0 {
        (-(t as i64)) as u64
    } else {
        t as u64
    };
    let mut s = String::new();
    if t < 0 {
        s.push('-');
    }
    let whole = u64_to_string(m / 10);
    s.append(whole.as_str());
    s.push('.');
    s.push(digit_char(m % 10));
    proof {
        assert(s@ =~= spec_format_tenths(t as int));
    }
    s
}

/// Powers of ten, for digit-count bounds.
pub open spec fn pow10(k: nat) -> nat
    decreases k,
{
    if k == 0 {
        1
    } else {
        10 * pow10((k - 1) as nat)
    }
}

/// A number below `10^k` prints in at most `k` digits.
pub proof fn lemma_digits_len_bound(n: nat, k: nat)
    requires
        k >= 1,
        n < pow10(k),
    ensures
        1 <= spec_digits(n).len() <= k,
    decreases k,
{
    if n < 10 {
    } else {
        assert(pow10(1) == 10) by {
            reveal_with_fuel(pow10, 2);
        }
        if k == 1 {
            assert(false);
        }
        assert(pow10(k) == 10 * pow10((k - 1) as nat));
        lemma_digits_len_bound(n / 10, (k - 1) as nat);
    }
}

/// A value in tenths that fits a 32-bit signed integer prints in at
/// most 12 characters (and at least 3: digit, point, digit).
pub proof fn lemma_format_tenths_len(t: int)
    requires
        -0x8000_0000 <= t < 0x8000_0000,
    ensures
        3 <= spec_format_tenths(t).len() <= 12,
{
    let m = if t < 0 {
        -t
    } else {
        t
    };
    assert(pow10(9) == 1000000000) by {
        reveal_with_fuel(pow10, 10);
    }
    lemma_digits_len_bound((m / 10) as nat, 9);
}

} // verus!
