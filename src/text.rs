//! Text building blocks: decimal numerals and right padding.
use vstd::prelude::*;

verus! {

/// The character of a decimal digit.
pub open spec fn digit_char(d: nat) -> char {
    seq!['0', '1', '2', '3', '4', '5', '6', '7', '8', '9'][d as int]
}

/// Decimal numeral of a natural number, without leading zeros.
pub open spec fn dec_nat(n: nat) -> Seq<char>
    decreases n,
{
    if n < 10 {
        seq![digit_char(n)]
    } else {
        dec_nat(n / 10) + seq![digit_char(n % 10)]
    }
}

/// Decimal numeral of an integer, with a leading `-` when negative.
pub open spec fn dec_int(x: int) -> Seq<char> {
    if x < 0 {
        seq!['-'] + dec_nat((-x) as nat)
    } else {
        dec_nat(x as nat)
    }
}

/// `n` spaces.
pub open spec fn spaces(n: nat) -> Seq<char> {
    Seq::new(n, |i: int| ' ')
}

/// `s` followed by spaces up to `width` characters; unchanged when already as wide.
pub open spec fn pad_right(s: Seq<char>, width: nat) -> Seq<char> {
    if s.len() >= width {
        s
    } else {
        s + spaces((width - s.len()) as nat)
    }
}

pub open spec fn is_digit(c: char) -> bool {
    '0' <= c && c <= '9'
}

/// Every character of a numeral is a digit or a minus sign.
pub proof fn lemma_dec_nat_digits(n: nat)
    ensures
        forall|i: int| 0 <= i < dec_nat(n).len() ==> is_digit(#[trigger] dec_nat(n)[i]),
        dec_nat(n).len() >= 1,
    decreases n,
{
    if n >= 10 {
        lemma_dec_nat_digits(n / 10);
        assert forall|i: int| 0 <= i < dec_nat(n).len() implies is_digit(#[trigger] dec_nat(n)[i]) by {
            if i < dec_nat(n / 10).len() {
                assert(dec_nat(n)[i] == dec_nat(n / 10)[i]);
            }
        }
    }
}

pub proof fn lemma_dec_int_chars(x: int)
    ensures
        forall|i: int| 0 <= i < dec_int(x).len() ==> is_digit(#[trigger] dec_int(x)[i]) || dec_int(x)[i] == '-',
{
    if x < 0 {
        lemma_dec_nat_digits((-x) as nat);
        assert forall|i: int| 0 <= i < dec_int(x).len() implies is_digit(#[trigger] dec_int(x)[i]) || dec_int(x)[i] == '-' by {
            if i > 0 {
                assert(dec_int(x)[i] == dec_nat((-x) as nat)[i - 1]);
            }
        }
    } else {
        lemma_dec_nat_digits(x as nat);
    }
}

fn digit_str(d: u64) -> (r: &'static str)
    requires
        d < 10,
    ensures
        r@ == seq![digit_char(d as nat)],
{
    proof {
        reveal_strlit("0");
        reveal_strlit("1");
        reveal_strlit("2");
        reveal_strlit("3");
        reveal_strlit("4");
        reveal_strlit("5");
        reveal_strlit("6");
        reveal_strlit("7");
        reveal_strlit("8");
        reveal_strlit("9");
    }
    if d == 0 {
        "0"
    } else if d == 1 {
        "1"
    } else if d == 2 {
        "2"
    } else if d == 3 {
        "3"
    } else if d == 4 {
        "4"
    } else if d == 5 {
        "5"
    } else if d == 6 {
        "6"
    } else if d == 7 {
        "7"
    } else if d == 8 {
        "8"
    } else {
        "9"
    }
}

/// Decimal numeral of `n`.
pub fn u64_text(n: u64) -> (r: String)
    ensures
        r@ == dec_nat(n as nat),
{
    let mut s = String::from_str(digit_str(n % 10));
    let mut rest: u64 = n / 10;
    while rest > 0
        invariant
            rest > 0 ==> dec_nat(n as nat) == dec_nat(rest as nat) + s@,
            rest == 0 ==> dec_nat(n as nat) == s@,
        decreases rest,
    {
        let d = String::from_str(digit_str(rest % 10));
        s = d.concat(s.as_str());
        proof {
            if rest >= 10 {
                assert(dec_nat(rest as nat) == dec_nat((rest / 10) as nat) + seq![digit_char((rest % 10) as nat)]);
                assert(dec_nat(n as nat) =~= dec_nat((rest / 10) as nat) + s@);
            } else {
                assert(dec_nat(n as nat) =~= s@);
            }
        }
        rest = rest / 10;
    }
    s
}

/// Decimal numeral of `x`, with a leading `-` when negative.
pub fn i64_text(x: i64) -> (r: String)
    ensures
        r@ == dec_int(x as int),
{
    if x < 0 {
        let m: u64 = (0i128 - x as i128) as u64;
        let digits = u64_text(m);
        proof {
            reveal_strlit("-");
        }
        String::from_str("-").concat(digits.as_str())
    } else {
        u64_text(x as u64)
    }
}

/// `s` followed by spaces up to `width` characters.
pub fn pad_text(s: &str, width: usize) -> (r: String)
    ensures
        r@ == pad_right(s@, width as nat),
{
    let mut r = String::from_str(s);
    let mut n: usize = s.unicode_len();
    if n >= width {
        return r;
    }
    let start: usize = n;
    while n < width
        invariant
            start <= n <= width,
            start == s@.len(),
            r@ == s@ + spaces((n - start) as nat),
        decreases width - n,
    {
        let ghost prev = r@;
        proof {
            reveal_strlit(" ");
        }
        assert(" "@ =~= seq![' ']);
        r.append(" ");
        n = n + 1;
        assert(prev == s@ + spaces((n - 1 - start) as nat));
        assert(r@ =~= s@ + spaces((n - start) as nat));
    }
    r
}

} // verus!
