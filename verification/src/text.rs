use vstd::prelude::*;
use vstd::string::*;

verus! {

/// The character that writes the digit `d`.
pub open spec fn digit_char(d: nat) -> char {
    if d == 0 {
        '0'
    } else if d == 1 {
        '1'
    } else if d == 2 {
        '2'
    } else if d == 3 {
        '3'
    } else if d == 4 {
        '4'
    } else if d == 5 {
        '5'
    } else if d == 6 {
        '6'
    } else if d == 7 {
        '7'
    } else if d == 8 {
        '8'
    } else {
        '9'
    }
}

/// The decimal digits of `n`, most significant first, without leading zeros.
pub open spec fn decimal_digits(n: nat) -> Seq<char>
    decreases n,
{
    if n < 10 {
        seq![digit_char(n)]
    } else {
        decimal_digits(n / 10).push(digit_char(n % 10))
    }
}

/// The decimal text of `n`: a minus sign if it is negative, then the digits
/// of its magnitude.
pub open spec fn decimal(n: int) -> Seq<char> {
    if n < 0 {
        seq!['-'] + decimal_digits((-n) as nat)
    } else {
        decimal_digits(n as nat)
    }
}

/// The one-character text of a digit.
fn digit_text(d: u64) -> (text: &'static str)
    requires
        d < 10,
    ensures
        text@ == seq![digit_char(d as nat)],
{
    proof {
        reveal_strlit("0");
        reveal_strlit("1");
        reveal_strlit("2");
        reveal_strlit("3");
        reveal_strlit("4");
        reveal_strlit("5");
        reveal_strlit("6");
        reveal_strlit("7");
        reveal_strlit("8");
        reveal_strlit("9");
    }
    let text: &'static str = if d == 0 {
        "0"
    } else if d == 1 {
        "1"
    } else if d == 2 {
        "2"
    } else if d == 3 {
        "3"
    } else if d == 4 {
        "4"
    } else if d == 5 {
        "5"
    } else if d == 6 {
        "6"
    } else if d == 7 {
        "7"
    } else if d == 8 {
        "8"
    } else {
        "9"
    };
    assert(text@ =~= seq![digit_char(d as nat)]);
    text
}

/// Writes a natural number in decimal.
pub fn natural_text(n: u64) -> (text: String)
    ensures
        text@ == decimal_digits(n as nat),
    decreases n,
{
    if n < 10 {
        String::from_str(digit_text(n))
    } else {
        let mut text = natural_text(n / 10);
        text.append(digit_text(n % 10));
        assert(text@ =~= decimal_digits(n as nat));
        text
    }
}

/// Writes an integer in decimal.
pub fn integer_text(n: i64) -> (text: String)
    ensures
        text@ == decimal(n as int),
{
    if n < 0 {
        let magnitude: u64 = ((-(n + 1)) as u64) + 1;
        let digits = natural_text(magnitude);
        let text = String::from_str("-").concat(digits.as_str());
        proof {
            reveal_strlit("-");
            assert(text@ =~= decimal(n as int));
        }
        text
    } else {
        natural_text(n as u64)
    }
}

/// Two digits that are written with the same character are the same.
proof fn digit_char_is_injective(a: nat, b: nat)
    requires
        a < 10,
        b < 10,
        digit_char(a) == digit_char(b),
    ensures
        a == b,
{
}

/// The decimal digits of a number are at least one, and more than one from
/// ten on.
pub proof fn decimal_digits_length(n: nat)
    ensures
        decimal_digits(n).len() >= 1,
        n >= 10 ==> decimal_digits(n).len() >= 2,
    decreases n,
{
    if n >= 10 {
        decimal_digits_length(n / 10);
    }
}

/// No character of the decimal digits of a number is a minus sign.
pub proof fn decimal_digits_hold_no_sign(n: nat, i: int)
    requires
        0 <= i < decimal_digits(n).len(),
    ensures
        decimal_digits(n)[i] != '-',
    decreases n,
{
    if n >= 10 && i < decimal_digits(n).len() - 1 {
        decimal_digits_hold_no_sign(n / 10, i);
    }
}

/// Different numbers have different decimal digits.
pub proof fn decimal_digits_are_injective(a: nat, b: nat)
    requires
        decimal_digits(a) == decimal_digits(b),
    ensures
        a == b,
    decreases a,
{
    decimal_digits_length(a);
    decimal_digits_length(b);
    if a < 10 && b < 10 {
        assert(decimal_digits(a)[0] == digit_char(a));
        assert(decimal_digits(b)[0] == digit_char(b));
        digit_char_is_injective(a, b);
    } else if a >= 10 && b >= 10 {
        let front_a = decimal_digits(a / 10);
        let front_b = decimal_digits(b / 10);
        assert(decimal_digits(a).last() == digit_char(a % 10));
        assert(decimal_digits(b).last() == digit_char(b % 10));
        digit_char_is_injective(a % 10, b % 10);
        assert(decimal_digits(a).drop_last() =~= front_a);
        assert(decimal_digits(b).drop_last() =~= front_b);
        decimal_digits_are_injective(a / 10, b / 10);
    }
}

/// Different integers have different decimal texts.
pub proof fn decimal_is_injective(a: int, b: int)
    requires
        decimal(a) == decimal(b),
    ensures
        a == b,
{
    if a < 0 && b < 0 {
        assert(decimal(a).subrange(1, decimal(a).len() as int) =~= decimal_digits((-a) as nat));
        assert(decimal(b).subrange(1, decimal(b).len() as int) =~= decimal_digits((-b) as nat));
        decimal_digits_are_injective((-a) as nat, (-b) as nat);
    } else if a >= 0 && b >= 0 {
        decimal_digits_are_injective(a as nat, b as nat);
    } else if a < 0 {
        assert(decimal(a)[0] == '-');
        decimal_digits_length(b as nat);
        decimal_digits_hold_no_sign(b as nat, 0);
    } else {
        assert(decimal(b)[0] == '-');
        decimal_digits_length(a as nat);
        decimal_digits_hold_no_sign(a as nat, 0);
    }
}

} // verus!
