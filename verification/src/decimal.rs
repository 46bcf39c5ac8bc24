//! Decimal rendering of integers, with zero padding.
use vstd::prelude::*;
use vstd::string::*;

verus! {

/// The character of a decimal digit.
pub open spec fn digit_char(d: nat) -> char {
    (d + 48) as char
}

/// The decimal digits of `n`, most significant first, without leading zeros ("0" for zero).
pub open spec fn digits(n: nat) -> Seq<char>
    decreases n,
{
    if n < 10 {
        seq![digit_char(n)]
    } else {
        digits(n / 10) + seq![digit_char(n % 10)]
    }
}

/// `s` preceded by as many '0' as it takes to reach `width` characters.
pub open spec fn zero_padded(s: Seq<char>, width: nat) -> Seq<char> {
    if s.len() >= width {
        s
    } else {
        Seq::new((width - s.len()) as nat, |i: int| '0') + s
    }
}

/// The decimal rendering of a signed integer: a '-' before the digits of a negative one.
pub open spec fn signed_digits(i: int) -> Seq<char> {
    if i < 0 {
        seq!['-'] + digits((-i) as nat)
    } else {
        digits(i as nat)
    }
}

/// A number has at least one digit, and no more than a number at least as large.
pub proof fn lemma_digits_len_monotone(a: nat, b: nat)
    requires
        a <= b,
    ensures
        1 <= digits(a).len() <= digits(b).len(),
    decreases b,
{
    if b >= 10 {
        if a >= 10 {
            lemma_digits_len_monotone(a / 10, b / 10);
        } else {
            lemma_digits_len_monotone(1, b / 10);
        }
    }
}

fn digit_str(d: u64) -> (s: &'static str)
    requires
        d < 10,
    ensures
        s@ == seq![digit_char(d as nat)],
{
    if d == 0 {
        proof { reveal_strlit("0"); }
        "0"
    } else if d == 1 {
        proof { reveal_strlit("1"); }
        "1"
    } else if d == 2 {
        proof { reveal_strlit("2"); }
        "2"
    } else if d == 3 {
        proof { reveal_strlit("3"); }
        "3"
    } else if d == 4 {
        proof { reveal_strlit("4"); }
        "4"
    } else if d == 5 {
        proof { reveal_strlit("5"); }
        "5"
    } else if d == 6 {
        proof { reveal_strlit("6"); }
        "6"
    } else if d == 7 {
        proof { reveal_strlit("7"); }
        "7"
    } else if d == 8 {
        proof { reveal_strlit("8"); }
        "8"
    } else {
        proof { reveal_strlit("9"); }
        "9"
    }
}

/// The decimal digits of `n`.
pub fn decimal(n: u64) -> (s: String)
    ensures
        s@ == digits(n as nat),
    decreases n,
{
    if n < 10 {
        String::from_str(digit_str(n))
    } else {
        let head = decimal(n / 10);
        head.concat(digit_str(n % 10))
    }
}

/// The decimal digits of `n`, zero padded to at least `width` characters.
pub fn decimal_padded(n: u64, width: usize) -> (s: String)
    ensures
        s@ == zero_padded(digits(n as nat), width as nat),
{
    let body = decimal(n);
    let len = body.as_str().unicode_len();
    if len >= width {
        return body;
    }
    let mut zeros = String::new();
    let mut i: usize = 0;
    while i < width - len
        invariant
            i <= width - len,
            len < width,
            zeros@ == Seq::new(i as nat, |k: int| '0'),
        decreases width - len - i,
    {
        proof { reveal_strlit("0"); }
        zeros.append("0");
        i = i + 1;
        assert(zeros@ =~= Seq::new(i as nat, |k: int| '0'));
    }
    zeros.concat(body.as_str())
}

/// The decimal rendering of a signed integer, with a leading '-' when negative.
pub fn signed_decimal(i: i64) -> (s: String)
    ensures
        s@ == signed_digits(i as int),
{
    if i < 0 {
        let magnitude: u64 = (-(i + 1)) as u64 + 1;
        proof { reveal_strlit("-"); }
        let minus = String::from_str("-");
        minus.concat(decimal(magnitude).as_str())
    } else {
        decimal(i as u64)
    }
}

/// The number of decimal digits of `n`.
pub fn digit_count(n: u64) -> (count: usize)
    ensures
        count == digits(n as nat).len(),
    decreases n,
{
    proof { lemma_digits_len_monotone(0, n as nat); }
    if n < 10 {
        1
    } else {
        let rest = digit_count(n / 10);
        proof { lemma_u64_digits_len(n / 10); }
        rest + 1
    }
}

spec fn pow10(k: nat) -> nat
    decreases k,
{
    if k == 0 { 1 } else { 10 * pow10((k - 1) as nat) }
}

proof fn lemma_digits_len_below_pow10(n: nat, k: nat)
    requires
        1 <= k,
        n < pow10(k),
    ensures
        digits(n).len() <= k,
    decreases k,
{
    if n >= 10 {
        if k == 1 {
            assert(pow10(1) == 10) by { reveal_with_fuel(pow10, 2); }
        } else {
            lemma_digits_len_below_pow10(n / 10, (k - 1) as nat);
        }
    }
}

proof fn lemma_u64_digits_len(n: u64)
    ensures
        digits(n as nat).len() <= 20,
{
    assert(pow10(20) == 100000000000000000000) by { reveal_with_fuel(pow10, 21); }
    lemma_digits_len_below_pow10(n as nat, 20);
}

} // verus!
