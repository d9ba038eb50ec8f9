//! Decimal rendering of integers.

use vstd::prelude::*;
use vstd::string::StringExecFns;

verus! {

/// The character of one decimal digit.
pub open spec fn digit_char(d: int) -> char
    recommends
        0 <= d < 10,
{
    if d == 0 {
        '0'
    } else if d == 1 {
        '1'
    } else if d == 2 {
        '2'
    } else if d == 3 {
        '3'
    } else if d == 4 {
        '4'
    } else if d == 5 {
        '5'
    } else if d == 6 {
        '6'
    } else if d == 7 {
        '7'
    } else if d == 8 {
        '8'
    } else {
        '9'
    }
}

/// The decimal digits of a natural number, most significant first, without
/// leading zeros; zero is the single digit `0`.
pub open spec fn nat_digits(n: nat) -> Seq<char>
    decreases n,
{
    if n < 10 {
        seq![digit_char(n as int)]
    } else {
        nat_digits(n / 10).push(digit_char((n % 10) as int))
    }
}

/// The decimal text of an integer: a minus sign for negative values, then
/// the digits of its magnitude.
pub open spec fn decimal(i: int) -> Seq<char> {
    if i < 0 {
        seq!['-'] + nat_digits((-i) as nat)
    } else {
        nat_digits(i as nat)
    }
}

fn digit_str(d: u64) -> (s: &'static str)
    requires
        d < 10,
    ensures
        s@ == seq![digit_char(d as int)],
{
    proof {
        reveal_strlit("0");
        reveal_strlit("1");
        reveal_strlit("2");
        reveal_strlit("3");
        reveal_strlit("4");
        reveal_strlit("5");
        reveal_strlit("6");
        reveal_strlit("7");
        reveal_strlit("8");
        reveal_strlit("9");
    }
    let s = if d == 0 {
        "0"
    } else if d == 1 {
        "1"
    } else if d == 2 {
        "2"
    } else if d == 3 {
        "3"
    } else if d == 4 {
        "4"
    } else if d == 5 {
        "5"
    } else if d == 6 {
        "6"
    } else if d == 7 {
        "7"
    } else if d == 8 {
        "8"
    } else {
        "9"
    };
    assert(s@ =~= seq![digit_char(d as int)]);
    s
}

/// The decimal digits of `n`.
pub fn unsigned_text(n: u64) -> (out: String)
    ensures
        out@ == nat_digits(n as nat),
    decreases n,
{
    if n < 10 {
        String::from_str(digit_str(n))
    } else {
        let mut out = unsigned_text(n / 10);
        out.append(digit_str(n % 10));
        assert(out@ =~= nat_digits((n / 10) as nat).push(digit_char((n % 10) as int)));
        out
    }
}

/// The magnitude of a signed integer, which always fits in `u64`.
pub fn magnitude(i: i64) -> (m: u64)
    ensures
        m as int == if i < 0 {
            -(i as int)
        } else {
            i as int
        },
{
    if i >= 0 {
        i as u64
    } else if i == i64::MIN {
        9223372036854775808u64
    } else {
        (-i) as u64
    }
}

/// The decimal text of `i`.
pub fn integer_text(i: i64) -> (out: String)
    ensures
        out@ == decimal(i as int),
{
    let digits = unsigned_text(magnitude(i));
    if i < 0 {
        proof {
            reveal_strlit("-");
        }
        let out = String::from_str("-").concat(digits.as_str());
        assert(out@ =~= seq!['-'] + digits@);
        out
    } else {
        digits
    }
}

/// Two integers with the same decimal text are the same integer.
pub proof fn lemma_decimal_injective(a: int, b: int)
    requires
        decimal(a) == decimal(b),
    ensures
        a == b,
{
    lemma_nat_digits_plain(if a < 0 { (-a) as nat } else { a as nat });
    lemma_nat_digits_plain(if b < 0 { (-b) as nat } else { b as nat });
    if a < 0 && b < 0 {
        let da = nat_digits((-a) as nat);
        let db = nat_digits((-b) as nat);
        assert(da =~= decimal(a).subrange(1, decimal(a).len() as int));
        assert(db =~= decimal(b).subrange(1, decimal(b).len() as int));
        lemma_nat_digits_injective((-a) as nat, (-b) as nat);
    } else if a >= 0 && b >= 0 {
        lemma_nat_digits_injective(a as nat, b as nat);
    } else if a < 0 {
        assert(decimal(a)[0] == '-');
        assert(decimal(b)[0] != '-');
    } else {
        assert(decimal(b)[0] == '-');
        assert(decimal(a)[0] != '-');
    }
}

/// Whether a character is a decimal digit.
pub open spec fn is_digit(c: char) -> bool {
    '0' <= c <= '9'
}

/// The digits of a natural number are digits, at least one of them.
pub proof fn lemma_nat_digits_plain(n: nat)
    ensures
        nat_digits(n).len() >= 1,
        forall|i: int| 0 <= i < nat_digits(n).len() ==> is_digit(#[trigger] nat_digits(n)[i]),
    decreases n,
{
    if n >= 10 {
        lemma_nat_digits_plain(n / 10);
    }
}

/// Different digits have different characters.
pub proof fn lemma_digit_char_injective(a: int, b: int)
    requires
        0 <= a < 10,
        0 <= b < 10,
        digit_char(a) == digit_char(b),
    ensures
        a == b,
{
}

/// Two natural numbers with the same digits are the same number.
pub proof fn lemma_nat_digits_injective(a: nat, b: nat)
    requires
        nat_digits(a) == nat_digits(b),
    ensures
        a == b,
    decreases a,
{
    lemma_nat_digits_plain(a / 10);
    lemma_nat_digits_plain(b / 10);
    if a < 10 && b < 10 {
        assert(nat_digits(a)[0] == digit_char(a as int));
        assert(nat_digits(b)[0] == digit_char(b as int));
        lemma_digit_char_injective(a as int, b as int);
    } else if a >= 10 && b >= 10 {
        let da = nat_digits(a / 10);
        let db = nat_digits(b / 10);
        assert(nat_digits(a).drop_last() =~= da);
        assert(nat_digits(b).drop_last() =~= db);
        assert(nat_digits(a).last() == digit_char((a % 10) as int));
        assert(nat_digits(b).last() == digit_char((b % 10) as int));
        lemma_nat_digits_injective(a / 10, b / 10);
        lemma_digit_char_injective((a % 10) as int, (b % 10) as int);
    } else if a < 10 {
        assert(nat_digits(b).len() >= 2);
    } else {
        assert(nat_digits(a).len() >= 2);
    }
}

} // verus!
