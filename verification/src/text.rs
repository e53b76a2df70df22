//! Decimal text of integers, with and without an explicit sign.

use vstd::prelude::*;

verus! {

/// The character that writes the digit `d`.
pub open spec fn digit_char(d: int) -> char {
    if d == 0 {
        '0'
    } else if d == 1 {
        '1'
    } else if d == 2 {
        '2'
    } else if d == 3 {
        '3'
    } else if d == 4 {
        '4'
    } else if d == 5 {
        '5'
    } else if d == 6 {
        '6'
    } else if d == 7 {
        '7'
    } else if d == 8 {
        '8'
    } else {
        '9'
    }
}

/// The decimal digits of `n`, most significant first, without leading zeros.
pub open spec fn digits(n: nat) -> Seq<char>
    decreases n,
{
    if n < 10 {
        seq![digit_char(n as int)]
    } else {
        digits(n / 10).push(digit_char((n % 10) as int))
    }
}

/// The plain decimal form of `v`: a minus sign in front of a negative
/// number, nothing in front of any other.
pub open spec fn decimal(v: int) -> Seq<char> {
    if v < 0 {
        seq!['-'] + digits((-v) as nat)
    } else {
        digits(v as nat)
    }
}

/// The signed form of `v`: a plus sign in front of a positive number, the
/// plain decimal form of any other.
pub open spec fn signed(v: int) -> Seq<char> {
    if v > 0 {
        seq!['+'] + decimal(v)
    } else {
        decimal(v)
    }
}

/// A decimal text is never empty.
pub proof fn lemma_digits_nonempty(n: nat)
    ensures
        digits(n).len() >= 1,
    decreases n,
{
    if n >= 10 {
        lemma_digits_nonempty(n / 10);
    }
}

/// Every character of `digits(n)` is one of the ten digit characters.
pub proof fn lemma_digits_are_digits(n: nat, i: int)
    requires
        0 <= i < digits(n).len(),
    ensures
        exists|d: int| 0 <= d < 10 && digits(n)[i] == #[trigger] digit_char(d),
    decreases n,
{
    if n < 10 {
        assert(digits(n)[i] == digit_char(n as int));
    } else if i < digits(n / 10).len() {
        lemma_digits_are_digits(n / 10, i);
    } else {
        assert(digits(n)[i] == digit_char((n % 10) as int));
    }
}

/// The signed form starts with a plus sign exactly when the number is
/// positive, and is then the plus sign followed by the plain decimal form;
/// for zero and for a negative number it is the plain decimal form.
pub proof fn lemma_signed_plus_iff_positive(v: int)
    ensures
        signed(v).len() >= 1,
        signed(v)[0] == '+' <==> v > 0,
        signed(v) == seq!['+'] + decimal(v) <==> v > 0,
        signed(v) == decimal(v) <==> v <= 0,
{
    if v < 0 {
        lemma_digits_nonempty((-v) as nat);
    } else {
        lemma_digits_nonempty(v as nat);
        lemma_digits_are_digits(v as nat, 0);
    }
    assert((seq!['+'] + decimal(v)).len() == decimal(v).len() + 1);
}

fn digit_str(d: u8) -> (s: &'static str)
    requires
        d < 10,
    ensures
        s@ == seq![digit_char(d as int)],
{
    proof {
        reveal_strlit("0");
        reveal_strlit("1");
        reveal_strlit("2");
        reveal_strlit("3");
        reveal_strlit("4");
        reveal_strlit("5");
        reveal_strlit("6");
        reveal_strlit("7");
        reveal_strlit("8");
        reveal_strlit("9");
    }
    let s: &'static str = match d {
        0 => "0",
        1 => "1",
        2 => "2",
        3 => "3",
        4 => "4",
        5 => "5",
        6 => "6",
        7 => "7",
        8 => "8",
        _ => "9",
    };
    assert(s@ =~= seq![digit_char(d as int)]);
    s
}

fn append_digits(out: &mut String, n: u128)
    ensures
        final(out)@ == old(out)@ + digits(n as nat),
    decreases n,
{
    if n >= 10 {
        append_digits(out, n / 10);
    }
    out.append(digit_str((n % 10) as u8));
    assert(out@ =~= old(out)@ + digits(n as nat));
}

/// Writes `v` in plain decimal form.
pub fn decimal_string(v: i128) -> (s: String)
    ensures
        s@ == decimal(v as int),
{
    let mut out = String::new();
    if v < 0 {
        proof {
            reveal_strlit("-");
        }
        out.append("-");
        let magnitude: u128 = ((-(v + 1)) as u128) + 1;
        append_digits(&mut out, magnitude);
        assert(out@ =~= seq!['-'] + digits((-v) as nat));
    } else {
        append_digits(&mut out, v as u128);
        assert(out@ =~= digits(v as nat));
    }
    out
}

/// Writes `v` with an explicit sign: `+` in front of a positive number,
/// and the plain decimal form of zero and of a negative number.
pub fn format_signed(v: i32) -> (s: String)
    ensures
        s@ == signed(v as int),
        s@ == seq!['+'] + decimal(v as int) <==> v > 0,
        s@ == decimal(v as int) <==> v <= 0,
{
    proof {
        lemma_signed_plus_iff_positive(v as int);
    }
    if v > 0 {
        proof {
            reveal_strlit("+");
        }
        let mut out = String::from_str("+");
        append_digits(&mut out, v as u128);
        assert(out@ =~= seq!['+'] + decimal(v as int));
        out
    } else {
        decimal_string(v as i128)
    }
}

} // verus!
