//! Decimal text of integers and fixed-point quantities.

use vstd::prelude::*;
use vstd::string::*;

verus! {

/// Number of fixed-point units in one whole unit of a price, volume or amount.
pub const UNIT: i64 = 100_000_000;

/// Number of decimal places that `UNIT` represents.
pub const UNIT_PLACES: u64 = 8;

/// The character of a decimal digit.
pub open spec fn digit_char(d: int) -> char {
    if d == 0 {
        '0'
    } else if d == 1 {
        '1'
    } else if d == 2 {
        '2'
    } else if d == 3 {
        '3'
    } else if d == 4 {
        '4'
    } else if d == 5 {
        '5'
    } else if d == 6 {
        '6'
    } else if d == 7 {
        '7'
    } else if d == 8 {
        '8'
    } else {
        '9'
    }
}

/// Decimal digits of `n`, without leading zeros (`"0"` for zero).
pub open spec fn digits(n: nat) -> Seq<char>
    decreases n,
{
    if n < 10 {
        seq![digit_char(n as int)]
    } else {
        digits(n / 10).push(digit_char((n % 10) as int))
    }
}

/// The lowest `w` decimal digits of `n`, zero-padded on the left.
pub open spec fn low_digits(n: nat, w: nat) -> Seq<char>
    decreases w,
{
    if w == 0 {
        Seq::empty()
    } else {
        low_digits(n / 10, (w - 1) as nat).push(digit_char((n % 10) as int))
    }
}

/// `n` in decimal, zero-padded on the left to at least `w` characters.
pub open spec fn padded(n: nat, w: nat) -> Seq<char> {
    if digits(n).len() >= w {
        digits(n)
    } else {
        low_digits(n, w)
    }
}

/// `s` without its trailing `'0'` characters.
pub open spec fn trim_zeros(s: Seq<char>) -> Seq<char>
    decreases s.len(),
{
    if s.len() > 0 && s.last() == '0' {
        trim_zeros(s.drop_last())
    } else {
        s
    }
}

/// A signed integer in decimal.
pub open spec fn int_text(v: int) -> Seq<char> {
    if v < 0 {
        seq!['-'] + digits((-v) as nat)
    } else {
        digits(v as nat)
    }
}

/// A fixed-point quantity (in `UNIT`ths) in shortest decimal form: the whole
/// part, then a point and the fraction without trailing zeros when there is one.
pub open spec fn fixed_text(v: int) -> Seq<char> {
    let m: nat = if v < 0 { (-v) as nat } else { v as nat };
    let whole = digits(m / (UNIT as nat));
    let frac: nat = m % (UNIT as nat);
    let sign = if v < 0 { seq!['-'] } else { Seq::<char>::empty() };
    if frac == 0 {
        sign + whole
    } else {
        sign + whole + seq!['.'] + trim_zeros(low_digits(frac, UNIT_PLACES as nat))
    }
}

fn digit_str(d: u64) -> (r: &'static str)
    requires
        d < 10,
    ensures
        r@ == seq![digit_char(d as int)],
{
    if d == 0 {
        proof { reveal_strlit("0"); }
        assert("0"@ =~= seq!['0']);
        "0"
    } else if d == 1 {
        proof { reveal_strlit("1"); }
        assert("1"@ =~= seq!['1']);
        "1"
    } else if d == 2 {
        proof { reveal_strlit("2"); }
        assert("2"@ =~= seq!['2']);
        "2"
    } else if d == 3 {
        proof { reveal_strlit("3"); }
        assert("3"@ =~= seq!['3']);
        "3"
    } else if d == 4 {
        proof { reveal_strlit("4"); }
        assert("4"@ =~= seq!['4']);
        "4"
    } else if d == 5 {
        proof { reveal_strlit("5"); }
        assert("5"@ =~= seq!['5']);
        "5"
    } else if d == 6 {
        proof { reveal_strlit("6"); }
        assert("6"@ =~= seq!['6']);
        "6"
    } else if d == 7 {
        proof { reveal_strlit("7"); }
        assert("7"@ =~= seq!['7']);
        "7"
    } else if d == 8 {
        proof { reveal_strlit("8"); }
        assert("8"@ =~= seq!['8']);
        "8"
    } else {
        proof { reveal_strlit("9"); }
        assert("9"@ =~= seq!['9']);
        "9"
    }
}

/// Appends the decimal digits of `n`.
pub fn push_digits(out: &mut String, n: u64)
    ensures
        final(out)@ == old(out)@ + digits(n as nat),
    decreases n,
{
    if n >= 10 {
        push_digits(out, n / 10);
        out.append(digit_str(n % 10));
        assert(old(out)@ + digits(n as nat) =~= old(out)@ + digits((n / 10) as nat) + seq![
            digit_char((n % 10) as int),
        ]);
    } else {
        out.append(digit_str(n));
    }
}

/// Number of decimal digits of `n`.
pub fn digit_count(n: u64) -> (r: u64)
    ensures
        r as nat == digits(n as nat).len(),
        r <= 20,
    decreases n,
{
    if n >= 10 {
        let k = digit_count(n / 10);
        assert(n / 10 < 10_000_000_000_000_000_000u64 ==> k <= 19) by {
            if n / 10 < 10_000_000_000_000_000_000u64 {
                lemma_digits_len_bound((n / 10) as nat);
            }
        };
        k + 1
    } else {
        1
    }
}

proof fn lemma_digits_len_bound(n: nat)
    requires
        n < 10_000_000_000_000_000_000,
    ensures
        digits(n).len() <= 19,
    decreases n,
{
    reveal_with_fuel(pow10, 20);
    lemma_digits_len_pow(n, 19);
}

proof fn lemma_digits_len_pow(n: nat, k: nat)
    requires
        n < pow10(k),
        k >= 1,
    ensures
        digits(n).len() <= k,
    decreases n,
{
    if n >= 10 {
        assert(k >= 2) by {
            if k == 1 {
                assert(pow10(1) == 10 * pow10(0));
            }
        };
        assert(pow10(k) == 10 * pow10((k - 1) as nat));
        assert(n / 10 < pow10((k - 1) as nat));
        lemma_digits_len_pow(n / 10, (k - 1) as nat);
    }
}

/// Ten to the power `k`.
pub open spec fn pow10(k: nat) -> nat
    decreases k,
{
    if k == 0 {
        1
    } else {
        10 * pow10((k - 1) as nat)
    }
}

/// Appends the lowest `w` decimal digits of `n`, zero-padded.
pub fn push_low_digits(out: &mut String, n: u64, w: u64)
    ensures
        final(out)@ == old(out)@ + low_digits(n as nat, w as nat),
    decreases w,
{
    if w > 0 {
        push_low_digits(out, n / 10, w - 1);
        out.append(digit_str(n % 10));
        assert(old(out)@ + low_digits(n as nat, w as nat) =~= old(out)@ + low_digits(
            (n / 10) as nat,
            (w - 1) as nat,
        ) + seq![digit_char((n % 10) as int)]);
    } else {
        assert(old(out)@ + low_digits(n as nat, w as nat) =~= old(out)@);
    }
}

/// Appends `n` in decimal, zero-padded to at least `w` characters.
pub fn push_padded(out: &mut String, n: u64, w: u64)
    ensures
        final(out)@ == old(out)@ + padded(n as nat, w as nat),
{
    if digit_count(n) >= w {
        push_digits(out, n);
    } else {
        push_low_digits(out, n, w);
    }
}

/// Appends a signed integer in decimal.
pub fn push_int(out: &mut String, v: i64)
    ensures
        final(out)@ == old(out)@ + int_text(v as int),
{
    if v < 0 {
        proof { reveal_strlit("-"); }
        out.append("-");
        let m: u64 = (0i128 - v as i128) as u64;
        push_digits(out, m);
        assert(old(out)@ + int_text(v as int) =~= old(out)@ + seq!['-'] + digits(m as nat));
    } else {
        push_digits(out, v as u64);
    }
}

proof fn lemma_trim_low_digits(f: nat, w: nat)
    requires
        w > 0,
        f % 10 == 0,
    ensures
        trim_zeros(low_digits(f, w)) == trim_zeros(low_digits(f / 10, (w - 1) as nat)),
{
    let s = low_digits(f, w);
    assert(s == low_digits(f / 10, (w - 1) as nat).push('0'));
    assert(s.drop_last() =~= low_digits(f / 10, (w - 1) as nat));
}

/// Appends a fixed-point quantity (in `UNIT`ths) in shortest decimal form.
pub fn push_fixed(out: &mut String, v: i64)
    ensures
        final(out)@ == old(out)@ + fixed_text(v as int),
{
    let neg = v < 0;
    let m: u64 = if neg { (0i128 - v as i128) as u64 } else { v as u64 };
    let ghost start = out@;
    if neg {
        proof { reveal_strlit("-"); }
        out.append("-");
    }
    let ghost sign = if neg { seq!['-'] } else { Seq::<char>::empty() };
    assert(out@ =~= start + sign);
    let unit = UNIT as u64;
    push_digits(out, m / unit);
    let frac = m % unit;
    if frac != 0 {
        proof { reveal_strlit("."); }
        out.append(".");
        let mut f = frac;
        let mut w = UNIT_PLACES;
        while w > 0 && f % 10 == 0
            invariant
                trim_zeros(low_digits(f as nat, w as nat)) == trim_zeros(
                    low_digits(frac as nat, UNIT_PLACES as nat),
                ),
            decreases w,
        {
            proof {
                lemma_trim_low_digits(f as nat, w as nat);
            }
            f = f / 10;
            w = w - 1;
        }
        proof {
            if w > 0 {
                let s = low_digits(f as nat, w as nat);
                assert(s.last() == digit_char((f % 10) as int));
            }
        }
        push_low_digits(out, f, w);
        assert(out@ =~= start + sign + digits((m / unit) as nat) + seq!['.'] + trim_zeros(
            low_digits(frac as nat, UNIT_PLACES as nat),
        ));
    } else {
        assert(out@ =~= start + sign + digits((m / unit) as nat));
    }
}

} // verus!
