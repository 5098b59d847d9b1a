//! Decimal text for the numbers that appear in markup attributes.

use vstd::prelude::*;

verus! {

/// The character of one decimal digit, for `d` below ten.
pub open spec fn digit(d: nat) -> char {
    if d == 0 {
        '0'
    } else if d == 1 {
        '1'
    } else if d == 2 {
        '2'
    } else if d == 3 {
        '3'
    } else if d == 4 {
        '4'
    } else if d == 5 {
        '5'
    } else if d == 6 {
        '6'
    } else if d == 7 {
        '7'
    } else if d == 8 {
        '8'
    } else {
        '9'
    }
}

/// The decimal numeral of `n`: most significant digit first, no sign and
/// no leading zero (zero itself is written `0`).
pub open spec fn decimal(n: nat) -> Seq<char>
    decreases n,
{
    if n < 10 {
        seq![digit(n)]
    } else {
        decimal(n / 10).push(digit(n % 10))
    }
}

/// The one-character text of a decimal digit.
fn digit_str(d: u64) -> (s: &'static str)
    requires
        d < 10,
    ensures
        s@ == seq![digit(d as nat)],
{
    proof {
        reveal_strlit("0");
        reveal_strlit("1");
        reveal_strlit("2");
        reveal_strlit("3");
        reveal_strlit("4");
        reveal_strlit("5");
        reveal_strlit("6");
        reveal_strlit("7");
        reveal_strlit("8");
        reveal_strlit("9");
    }
    let s: &'static str = if d == 0 {
        "0"
    } else if d == 1 {
        "1"
    } else if d == 2 {
        "2"
    } else if d == 3 {
        "3"
    } else if d == 4 {
        "4"
    } else if d == 5 {
        "5"
    } else if d == 6 {
        "6"
    } else if d == 7 {
        "7"
    } else if d == 8 {
        "8"
    } else {
        "9"
    };
    assert(s@ =~= seq![digit(d as nat)]);
    s
}

/// Writes `n` in decimal.
pub fn decimal_string(n: u64) -> (s: String)
    ensures
        s@ == decimal(n as nat),
    decreases n,
{
    if n < 10 {
        digit_str(n).to_owned()
    } else {
        let mut s = decimal_string(n / 10);
        s.append(digit_str(n % 10));
        assert(s@ =~= decimal(n as nat));
        s
    }
}

/// A numeral has at least one digit, and all its characters are digits.
pub proof fn decimal_is_made_of_digits(n: nat)
    ensures
        decimal(n).len() >= 1,
        forall|i: int| 0 <= i < decimal(n).len() ==> '0' <= #[trigger] decimal(n)[i] <= '9',
    decreases n,
{
    if n >= 10 {
        decimal_is_made_of_digits(n / 10);
    }
}

/// Different numbers have different numerals.
pub proof fn decimal_is_injective(a: nat, b: nat)
    requires
        decimal(a) == decimal(b),
    ensures
        a == b,
    decreases a,
{
    decimal_is_made_of_digits(a / 10);
    decimal_is_made_of_digits(b / 10);
    if a < 10 || b < 10 {
        // One numeral has a single digit, so both have, and it is the same.
        assert(a < 10 ==> decimal(a).len() == 1);
        assert(b < 10 ==> decimal(b).len() == 1);
        assert(a >= 10 ==> decimal(a).len() == decimal(a / 10).len() + 1);
        assert(b >= 10 ==> decimal(b).len() == decimal(b / 10).len() + 1);
        assert(decimal(a)[0] == digit(a));
        assert(decimal(b)[0] == digit(b));
    } else {
        // The last digits agree, and so do the numerals of the tens.
        let upper_a = decimal(a / 10);
        let upper_b = decimal(b / 10);
        assert(upper_a.push(digit(a % 10)).last() == digit(a % 10));
        assert(upper_b.push(digit(b % 10)).last() == digit(b % 10));
        assert(upper_a.push(digit(a % 10)).drop_last() =~= upper_a);
        assert(upper_b.push(digit(b % 10)).drop_last() =~= upper_b);
        decimal_is_injective(a / 10, b / 10);
    }
}

/// Ids made of one prefix and the numerals of different numbers differ, so
/// the definitions of two layers of one document never share an id.
pub proof fn numbered_ids_differ(prefix: Seq<char>, a: nat, b: nat)
    requires
        a != b,
    ensures
        prefix + decimal(a) != prefix + decimal(b),
{
    if prefix + decimal(a) == prefix + decimal(b) {
        let whole = prefix + decimal(a);
        assert(whole.subrange(prefix.len() as int, whole.len() as int) =~= decimal(a));
        assert(whole.subrange(prefix.len() as int, whole.len() as int) =~= decimal(b));
        decimal_is_injective(a, b);
    }
}

} // verus!
